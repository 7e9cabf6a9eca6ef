use vstd::prelude::*;
use crate::template::{engine_accepts, template_is_valid, tinytemplate_compiles, TemplateError};

verus! {

broadcast use vstd::string::group_string_axioms;

/// The state an alert reports.
#[derive(Debug, Clone, Copy, PartialEq, Eq, Structural)]
pub enum AlertKind {
    Triggered,
    Resolved,
}

/// Two templates: one for an alert that fires, one for an alert that clears.
#[derive(Debug)]
pub struct TemplateEntry {
    down_template: String,
    up_template: String,
}

impl TemplateEntry {
    /// The template used when the alert fires.
    pub closed spec fn down(self) -> Seq<char> {
        self.down_template@
    }

    /// The template used when the alert clears.
    pub closed spec fn up(self) -> Seq<char> {
        self.up_template@
    }

    /// The template text for an alert of the given kind.
    pub open spec fn text_for(self, kind: AlertKind) -> Seq<char> {
        match kind {
            AlertKind::Triggered => self.down(),
            AlertKind::Resolved => self.up(),
        }
    }

    pub fn new(down_template: String, up_template: String) -> (r: TemplateEntry)
        ensures
            r.down() == down_template@,
            r.up() == up_template@,
    {
        TemplateEntry { down_template, up_template }
    }

    /// A pair whose two templates are both text that the engine compiles;
    /// refused otherwise, so that a bad template stops loading.
    pub fn checked(down_template: String, up_template: String) -> (r: Result<TemplateEntry, TemplateError>)
        ensures
            r is Ok <==> (engine_accepts(down_template@) && tinytemplate_compiles(down_template@)
                && engine_accepts(up_template@) && tinytemplate_compiles(up_template@)),
            r is Ok ==> r->Ok_0.down() == down_template@ && r->Ok_0.up() == up_template@,
    {
        if !template_is_valid(down_template.as_str()) {
            return Err(TemplateError { message: "invalid down-template".to_string() });
        }
        if !template_is_valid(up_template.as_str()) {
            return Err(TemplateError { message: "invalid up-template".to_string() });
        }
        Ok(TemplateEntry { down_template, up_template })
    }

    pub fn get(&self, kind: AlertKind) -> (r: &str)
        ensures
            r@ == self.text_for(kind),
    {
        match kind {
            AlertKind::Triggered => self.down_template.as_str(),
            AlertKind::Resolved => self.up_template.as_str(),
        }
    }
}

/// What the store says of one service: a display name and a template pair,
/// each optional.
#[derive(Debug)]
pub struct Service {
    pub friendly_name: Option<String>,
    pub template: Option<TemplateEntry>,
}

impl Service {
    pub fn new(friendly_name: Option<String>, template: Option<TemplateEntry>) -> (r: Service)
        ensures
            r.friendly_name == friendly_name,
            r.template == template,
    {
        Service { friendly_name, template }
    }
}

/// The service recorded under `(group, name)`: the last record with that key.
pub open spec fn find_record(records: Seq<(String, String, Service)>, group: Seq<char>, name: Seq<char>) -> Option<Service>
    decreases records.len(),
{
    if records.len() == 0 {
        None
    } else if records.last().0@ == group && records.last().1@ == name {
        Some(records.last().2)
    } else {
        find_record(records.drop_last(), group, name)
    }
}

/// The display name that a lookup yields.
pub open spec fn friendly_of(s: Option<Service>) -> Option<Seq<char>> {
    match s {
        Some(svc) => match svc.friendly_name {
            Some(f) => Some(f@),
            None => None,
        },
        None => None,
    }
}

/// The template store: a global default pair, a default pair for services
/// with a display name, and overrides keyed by group and service name.
#[derive(Debug)]
pub struct TemplateConfig {
    pub default: TemplateEntry,
    pub default_friendly: TemplateEntry,
    service: Vec<(String, String, Service)>,
}

impl TemplateConfig {
    /// The override recorded for `(group, name)`, if any.
    pub closed spec fn lookup(self, group: Seq<char>, name: Seq<char>) -> Option<Service> {
        find_record(self.service@, group, name)
    }

    /// The pair used where no override and no display name applies.
    pub closed spec fn default_pair(self) -> TemplateEntry {
        self.default
    }

    /// The pair used for a service with a display name and no pair of its own.
    pub closed spec fn friendly_pair(self) -> TemplateEntry {
        self.default_friendly
    }

    /// No two overrides share a group and a service name.
    pub closed spec fn wf(self) -> bool {
        forall|i: int, j: int|
            0 <= i < j < self.service@.len() ==> !(#[trigger] self.service@[i].0@ == #[trigger] self.service@[j].0@
                && self.service@[i].1@ == self.service@[j].1@)
    }

    /// The template pair that applies to `(group, name)`.
    pub open spec fn template_spec(self, group: Seq<char>, name: Seq<char>) -> TemplateEntry {
        match self.lookup(group, name) {
            None => self.default_pair(),
            Some(svc) => match (svc.friendly_name, svc.template) {
                (None, None) => self.default_pair(),
                (None, Some(t)) => t,
                (Some(_), None) => self.friendly_pair(),
                (Some(_), Some(t)) => t,
            },
        }
    }

    /// The template text and display name that apply to an alert of `kind`
    /// for `(group, name)`.
    pub open spec fn resolve_spec(self, group: Seq<char>, name: Seq<char>, kind: AlertKind) -> (Seq<char>, Option<Seq<char>>) {
        (self.template_spec(group, name).text_for(kind), friendly_of(self.lookup(group, name)))
    }

    /// A store with the two defaults and no overrides.
    pub fn new(default: TemplateEntry, default_friendly: TemplateEntry) -> (r: TemplateConfig)
        ensures
            r.wf(),
            r.default_pair() == default,
            r.friendly_pair() == default_friendly,
            forall|g: Seq<char>, n: Seq<char>| r.lookup(g, n) is None,
    {
        TemplateConfig { default, default_friendly, service: Vec::new() }
    }

    pub fn service(&self, group: &str, name: &str) -> (r: Option<&Service>)
        ensures
            match r {
                Some(s) => self.lookup(group@, name@) == Some(*s),
                None => self.lookup(group@, name@) is None,
            },
    {
        let g = group.to_string();
        let n = name.to_string();
        let mut i: usize = self.service.len();
        assert(self.service@.subrange(0, i as int) =~= self.service@);
        while i > 0
            invariant
                i <= self.service@.len(),
                g@ == group@,
                n@ == name@,
                find_record(self.service@, g@, n@) == find_record(self.service@.subrange(0, i as int), g@, n@),
            decreases i,
        {
            let rec = &self.service[i - 1];
            assert(self.service@.subrange(0, i as int).last() == self.service@[i - 1]);
            if rec.0 == g && rec.1 == n {
                return Some(&rec.2);
            }
            assert(self.service@.subrange(0, i as int).drop_last() =~= self.service@.subrange(0, i - 1));
            i = i - 1;
        }
        None
    }

    /// Records an override for `(group, name)`; refuses one for a key that
    /// already has an override.
    pub fn add_service(&mut self, group: String, name: String, service: Service) -> (added: bool)
        requires
            old(self).wf(),
        ensures
            final(self).wf(),
            added == (old(self).lookup(group@, name@) is None),
            added ==> final(self).lookup(group@, name@) == Some(service),
            forall|g: Seq<char>, n: Seq<char>|
                !(added && g == group@ && n == name@) ==> #[trigger] final(self).lookup(g, n) == old(self).lookup(g, n),
            final(self).default_pair() == old(self).default_pair(),
            final(self).friendly_pair() == old(self).friendly_pair(),
    {
        if self.service(group.as_str(), name.as_str()).is_some() {
            return false;
        }
        proof {
            lemma_absent_key(self.service@, group@, name@);
        }
        let ghost before = self.service@;
        self.service.push((group, name, service));
        proof {
            assert(self.service@.drop_last() =~= before);
            assert forall|g: Seq<char>, n: Seq<char>|
                !(g == self.service@.last().0@ && n == self.service@.last().1@) implies #[trigger] find_record(self.service@, g, n)
                == find_record(before, g, n) by {}
        }
        true
    }

    pub fn template_for(&self, group: &str, name: &str) -> (r: &TemplateEntry)
        ensures
            *r == self.template_spec(group@, name@),
    {
        match self.service(group, name) {
            None => &self.default,
            Some(svc) => match &svc.friendly_name {
                None => match &svc.template {
                    None => &self.default,
                    Some(t) => t,
                },
                Some(_) => match &svc.template {
                    None => &self.default_friendly,
                    Some(t) => t,
                },
            },
        }
    }

    /// The template text and display name for an alert of `kind` from
    /// `(group, name)`.
    pub fn resolve(&self, group: &str, name: &str, kind: AlertKind) -> (r: (&str, Option<&str>))
        ensures
            r.0@ == self.resolve_spec(group@, name@, kind).0,
            match r.1 {
                Some(f) => self.resolve_spec(group@, name@, kind).1 == Some(f@),
                None => self.resolve_spec(group@, name@, kind).1 is None,
            },
    {
        let text = self.template_for(group, name).get(kind);
        let friendly = match self.service(group, name) {
            Some(svc) => match &svc.friendly_name {
                Some(f) => Some(f.as_str()),
                None => None,
            },
            None => None,
        };
        (text, friendly)
    }
}

/// A key that no record holds: every record has another key.
proof fn lemma_absent_key(records: Seq<(String, String, Service)>, group: Seq<char>, name: Seq<char>)
    requires
        find_record(records, group, name) is None,
    ensures
        forall|i: int| 0 <= i < records.len() ==> !(#[trigger] records[i].0@ == group && records[i].1@ == name),
    decreases records.len(),
{
    if records.len() > 0 {
        lemma_absent_key(records.drop_last(), group, name);
        assert forall|i: int| 0 <= i < records.len() implies !(#[trigger] records[i].0@ == group && records[i].1@ == name) by {
            if i < records.len() - 1 {
                assert(records[i] == records.drop_last()[i]);
            }
        }
    }
}

/// Which of the four precedence rules picks the template.
#[derive(Debug, Clone, Copy, PartialEq, Eq, Structural)]
pub enum Precedence {
    /// No override, or one with neither a display name nor a pair.
    Default,
    /// An override with a pair of its own and no display name.
    ServiceTemplate,
    /// An override with a display name and no pair of its own.
    FriendlyDefault,
    /// An override with both a display name and a pair of its own.
    FriendlyTemplate,
}

impl TemplateConfig {
    /// The rule that applies to `(group, name)`.
    pub open spec fn precedence_spec(self, group: Seq<char>, name: Seq<char>) -> Precedence {
        match self.lookup(group, name) {
            None => Precedence::Default,
            Some(svc) => match (svc.friendly_name, svc.template) {
                (None, None) => Precedence::Default,
                (None, Some(_)) => Precedence::ServiceTemplate,
                (Some(_), None) => Precedence::FriendlyDefault,
                (Some(_), Some(_)) => Precedence::FriendlyTemplate,
            },
        }
    }

    /// The rule that picks the template for `(group, name)`.
    pub fn precedence(&self, group: &str, name: &str) -> (r: Precedence)
        ensures
            r == self.precedence_spec(group@, name@),
    {
        match self.service(group, name) {
            None => Precedence::Default,
            Some(svc) => match (&svc.friendly_name, &svc.template) {
                (None, None) => Precedence::Default,
                (None, Some(_)) => Precedence::ServiceTemplate,
                (Some(_), None) => Precedence::FriendlyDefault,
                (Some(_), Some(_)) => Precedence::FriendlyTemplate,
            },
        }
    }
}

/// Without an override for `(group, name)`, an alert of either kind gets
/// the default pair's text and no display name.
pub proof fn lemma_no_override_uses_default(c: TemplateConfig, group: Seq<char>, name: Seq<char>, kind: AlertKind)
    requires
        c.lookup(group, name) is None,
    ensures
        c.resolve_spec(group, name, kind) == (c.default_pair().text_for(kind), None::<Seq<char>>),
{
}

/// An override with a display name and no pair of its own gets the text of
/// the pair for named services, and that display name.
pub proof fn lemma_friendly_name_uses_friendly_default(
    c: TemplateConfig,
    group: Seq<char>,
    name: Seq<char>,
    kind: AlertKind,
    svc: Service,
    friendly: String,
)
    requires
        c.lookup(group, name) == Some(svc),
        svc.friendly_name == Some(friendly),
        svc.template is None,
    ensures
        c.resolve_spec(group, name, kind) == (c.friendly_pair().text_for(kind), Some(friendly@)),
{
}

/// An override with a pair of its own gets that pair's text, whether or not
/// it has a display name; the display name comes back only where it is set.
pub proof fn lemma_override_template_wins(
    c: TemplateConfig,
    group: Seq<char>,
    name: Seq<char>,
    kind: AlertKind,
    svc: Service,
    tpl: TemplateEntry,
)
    requires
        c.lookup(group, name) == Some(svc),
        svc.template == Some(tpl),
    ensures
        c.resolve_spec(group, name, kind).0 == tpl.text_for(kind),
        svc.friendly_name is None ==> c.resolve_spec(group, name, kind).1 is None,
        forall|f: String| svc.friendly_name == Some(f) ==> c.resolve_spec(group, name, kind).1 == Some(f@),
{
}

/// Exactly one rule applies to any `(group, name)`, each rule on its own
/// condition, and the text resolved for either kind is the one that rule
/// names.
pub proof fn lemma_precedence_total(c: TemplateConfig, group: Seq<char>, name: Seq<char>, kind: AlertKind)
    ensures
        (c.precedence_spec(group, name) == Precedence::Default) <==> (c.lookup(group, name) is None || (
        c.lookup(group, name)->Some_0.friendly_name is None && c.lookup(group, name)->Some_0.template is None)),
        (c.precedence_spec(group, name) == Precedence::ServiceTemplate) <==> (c.lookup(group, name) is Some
            && c.lookup(group, name)->Some_0.friendly_name is None && c.lookup(group, name)->Some_0.template is Some),
        (c.precedence_spec(group, name) == Precedence::FriendlyDefault) <==> (c.lookup(group, name) is Some
            && c.lookup(group, name)->Some_0.friendly_name is Some && c.lookup(group, name)->Some_0.template is None),
        (c.precedence_spec(group, name) == Precedence::FriendlyTemplate) <==> (c.lookup(group, name) is Some
            && c.lookup(group, name)->Some_0.friendly_name is Some && c.lookup(group, name)->Some_0.template is Some),
        c.resolve_spec(group, name, kind).0 == match c.precedence_spec(group, name) {
            Precedence::Default => c.default_pair().text_for(kind),
            Precedence::FriendlyDefault => c.friendly_pair().text_for(kind),
            _ => c.lookup(group, name)->Some_0.template->Some_0.text_for(kind),
        },
{
}

/// Process configuration: the posting account, whether posts go out, and
/// the template store.
#[derive(Debug)]
pub struct Config {
    pub host: String,
    pub client_id: String,
    pub client_secret: String,
    pub token: String,
    pub live: bool,
    pub tpl_config: TemplateConfig,
}

} // verus!
