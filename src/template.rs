use vstd::prelude::*;
use vstd::string::StrSliceExecFns;

verus! {

broadcast use vstd::string::group_string_axioms;

/// What tinytemplate makes of template text `tpl` filled from `fields`:
/// the rendered text, or `None` where it fails.
pub uninterp spec fn tinytemplate_output(tpl: Seq<char>, fields: Seq<(Seq<char>, Seq<char>)>) -> Option<Seq<char>>;

/// Whether tinytemplate's compiler takes template text `tpl` without error.
pub uninterp spec fn tinytemplate_compiles(tpl: Seq<char>) -> bool;

/// A character that tinytemplate may strip at the end of a block tag: `-`,
/// white space, or any character outside ASCII.
pub open spec fn strippable(c: char) -> bool {
    c == '-' || c == ' ' || (9 <= (c as u32) && (c as u32) <= 13) || (c as u32) >= 128
}

/// `not` starts at `i` and is followed by a character outside ASCII, or by
/// strippable characters and then `}`.
pub open spec fn bare_not_at(tpl: Seq<char>, i: int) -> bool {
    &&& 0 <= i && i + 3 <= tpl.len()
    &&& tpl[i] == 'n' && tpl[i + 1] == 'o' && tpl[i + 2] == 't'
    &&& {
        ||| (i + 3 < tpl.len() && (tpl[i + 3] as u32) >= 128)
        ||| exists|j: int|
            i + 3 <= j < tpl.len() && tpl[j] == '}' && forall|k: int| i + 3 <= k < j ==> #[trigger] strippable(tpl[k])
    }
}

/// `{#}` starts at `i`.
pub open spec fn empty_comment_at(tpl: Seq<char>, i: int) -> bool {
    0 <= i && i + 3 <= tpl.len() && tpl[i] == '{' && tpl[i + 1] == '#' && tpl[i + 2] == '}'
}

/// Template text on which tinytemplate's compiler cannot panic: it does not
/// end in a backslash (taken as escaping a `{` that never comes), holds no
/// comment tag written `{#}`, and no `not` that could be the whole condition
/// of an `if` block or be followed there by a character outside ASCII.
pub open spec fn engine_accepts(tpl: Seq<char>) -> bool {
    &&& !(tpl.len() > 0 && tpl.last() == '\\')
    &&& forall|i: int| !#[trigger] empty_comment_at(tpl, i)
    &&& forall|i: int| !#[trigger] bare_not_at(tpl, i)
}

/// The fields as text.
pub open spec fn fields_view(fields: Seq<(String, String)>) -> Seq<(Seq<char>, Seq<char>)> {
    fields.map_values(|p: (String, String)| (p.0@, p.1@))
}

/// The fields a template may refer to: `name`, `group`, and `friendly_name`
/// only where a display name is present.
pub open spec fn context_spec(group: Seq<char>, name: Seq<char>, friendly_name: Option<Seq<char>>) -> Seq<(Seq<char>, Seq<char>)> {
    let base = seq![("name"@, name), ("group"@, group)];
    match friendly_name {
        Some(f) => base.push(("friendly_name"@, f)),
        None => base,
    }
}

/// The text rendered from `tpl` for `(group, name, friendly_name)`, or
/// `None` where rendering fails.
pub open spec fn render_spec(tpl: Seq<char>, group: Seq<char>, name: Seq<char>, friendly_name: Option<Seq<char>>) -> Option<Seq<char>> {
    tinytemplate_output(tpl, context_spec(group, name, friendly_name))
}

/// The view of an optional text.
pub open spec fn opt_view(s: Option<&str>) -> Option<Seq<char>> {
    match s {
        Some(t) => Some(t@),
        None => None,
    }
}

/// A template that could not be compiled or filled.
#[derive(Debug)]
pub struct TemplateError {
    pub message: String,
}

/// Relies on tinytemplate's `TinyTemplate::add_template` and
/// `TinyTemplate::render`: `tpl` is compiled and filled from a map of the
/// fields, and the outcome depends on the text and the fields alone. Text
/// that `add_template` refuses is an error before any rendering. The
/// compiler panics on text outside `engine_accepts`, which is left out.
#[verifier::external_body]
fn tinytemplate_render(tpl: &str, fields: &Vec<(String, String)>) -> (r: Result<String, String>)
    requires
        engine_accepts(tpl@),
    ensures
        !tinytemplate_compiles(tpl@) ==> r is Err,
        match r {
            Ok(s) => tinytemplate_output(tpl@, fields_view(fields@)) == Some(s@),
            Err(_) => tinytemplate_output(tpl@, fields_view(fields@)) is None,
        },
{
    let mut tt = tinytemplate::TinyTemplate::new();
    tt.add_template("template", tpl).map_err(|e| e.to_string())?;
    let context: std::collections::BTreeMap<&str, &str> = fields.iter().map(|p| (p.0.as_str(), p.1.as_str())).collect();
    tt.render("template", &context).map_err(|e| e.to_string())
}

/// Relies on tinytemplate's `TinyTemplate::add_template`: whether it
/// compiles `tpl` without error. It panics on text outside
/// `engine_accepts`, which is left out.
#[verifier::external_body]
fn tinytemplate_check(tpl: &str) -> (r: bool)
    requires
        engine_accepts(tpl@),
    ensures
        r == tinytemplate_compiles(tpl@),
{
    tinytemplate::TinyTemplate::new().add_template("template", tpl).is_ok()
}

/// The characters of `s`.
fn chars_of(s: &str) -> (r: Vec<char>)
    ensures
        r@ == s@,
{
    let n = s.unicode_len();
    let mut v: Vec<char> = Vec::new();
    let mut i: usize = 0;
    while i < n
        invariant
            i <= n,
            n == s@.len(),
            v@ == s@.subrange(0, i as int),
        decreases n - i,
    {
        v.push(s.get_char(i));
        i = i + 1;
        assert(v@ =~= s@.subrange(0, i as int));
    }
    assert(v@ =~= s@);
    v
}

fn is_strippable(c: char) -> (r: bool)
    ensures
        r == strippable(c),
{
    let u = c as u32;
    c == '-' || c == ' ' || (9 <= u && u <= 13) || u >= 128
}

/// Whether `not` at `i` is a bare one.
fn bare_not(t: &Vec<char>, i: usize) -> (r: bool)
    requires
        i + 3 <= t@.len(),
        t@[i as int] == 'n' && t@[i + 1] == 'o' && t@[i + 2] == 't',
    ensures
        r == bare_not_at(t@, i as int),
{
    let n = t.len();
    if i + 3 < n && (t[i + 3] as u32) >= 128 {
        return true;
    }
    let mut j: usize = i + 3;
    while j < n && is_strippable(t[j])
        invariant
            i + 3 <= j <= n,
            n == t@.len(),
            forall|k: int| i + 3 <= k < j ==> #[trigger] strippable(t@[k]),
        decreases n - j,
    {
        j = j + 1;
    }
    let found = j < n && t[j] == '}';
    proof {
        if found {
            assert(i + 3 <= j < t@.len() && t@[j as int] == '}' && forall|k: int| i + 3 <= k < j ==> #[trigger] strippable(t@[k]));
        } else {
            assert forall|j2: int|
                !(i + 3 <= j2 < t@.len() && t@[j2] == '}' && forall|k: int| i + 3 <= k < j2 ==> #[trigger] strippable(t@[k])) by {
                if i + 3 <= j2 < t@.len() && t@[j2] == '}' && forall|k: int| i + 3 <= k < j2 ==> #[trigger] strippable(t@[k]) {
                    if j2 < j {
                        assert(strippable(t@[j2]));
                    } else if j2 > j {
                        assert(strippable(t@[j as int]));
                    }
                }
            }
        }
    }
    found
}

/// Whether tinytemplate's compiler can take `tpl` without panicking.
pub fn engine_accepts_text(tpl: &str) -> (r: bool)
    ensures
        r == engine_accepts(tpl@),
{
    let t = chars_of(tpl);
    let n = t.len();
    if n > 0 && t[n - 1] == '\\' {
        return false;
    }
    let mut i: usize = 0;
    while i < n
        invariant
            n == t@.len(),
            i <= n,
            t@ == tpl@,
            !(n > 0 && t@.last() == '\\'),
            forall|k: int| 0 <= k < i ==> !#[trigger] empty_comment_at(t@, k),
            forall|k: int| 0 <= k < i ==> !#[trigger] bare_not_at(t@, k),
        decreases n - i,
    {
        if 3 <= n - i && t[i] == '{' && t[i + 1] == '#' && t[i + 2] == '}' {
            assert(empty_comment_at(t@, i as int));
            return false;
        }
        if 3 <= n - i && t[i] == 'n' && t[i + 1] == 'o' && t[i + 2] == 't' {
            if bare_not(&t, i) {
                return false;
            }
        }
        assert(!empty_comment_at(t@, i as int));
        assert(!bare_not_at(t@, i as int));
        i = i + 1;
    }
    assert forall|k: int| !#[trigger] empty_comment_at(t@, k) by {
        if 0 <= k < n {} 
    }
    assert forall|k: int| !#[trigger] bare_not_at(t@, k) by {
        if 0 <= k < n {}
    }
    true
}

/// Whether `tpl` is template text that the engine compiles.
pub fn template_is_valid(tpl: &str) -> (r: bool)
    ensures
        r == (engine_accepts(tpl@) && tinytemplate_compiles(tpl@)),
{
    engine_accepts_text(tpl) && tinytemplate_check(tpl)
}

/// The fields handed to the template engine.
pub fn context(group: &str, name: &str, friendly_name: Option<&str>) -> (r: Vec<(String, String)>)
    ensures
        fields_view(r@) == context_spec(group@, name@, opt_view(friendly_name)),
{
    let mut fields: Vec<(String, String)> = Vec::new();
    fields.push(("name".to_string(), name.to_string()));
    fields.push(("group".to_string(), group.to_string()));
    match friendly_name {
        Some(f) => fields.push(("friendly_name".to_string(), f.to_string())),
        None => {},
    }
    assert(fields_view(fields@) =~= context_spec(group@, name@, opt_view(friendly_name)));
    fields
}

/// Turns the engine's outcome into the library's result.
pub fn template_result(outcome: Result<String, String>) -> (r: Result<String, TemplateError>)
    ensures
        match outcome {
            Ok(s) => r == Ok::<String, TemplateError>(s),
            Err(m) => r is Err && r->Err_0.message == m,
        },
{
    match outcome {
        Ok(s) => Ok(s),
        Err(message) => Err(TemplateError { message }),
    }
}

/// Renders `tpl` with the fields `name`, `group` and, where present,
/// `friendly_name`.
pub fn render(tpl: &str, group: &str, name: &str, friendly_name: Option<&str>) -> (r: Result<String, TemplateError>)
    ensures
        render_outcome(tpl@, group@, name@, opt_view(friendly_name), r),
{
    if !engine_accepts_text(tpl) {
        return Err(TemplateError { message: "template text the engine cannot compile".to_string() });
    }
    let fields = context(group, name, friendly_name);
    template_result(tinytemplate_render(tpl, &fields))
}

/// `r` is what rendering `tpl` for these fields gives: an error for text
/// the engine cannot take, else the engine's outcome.
pub open spec fn render_outcome(
    tpl: Seq<char>,
    group: Seq<char>,
    name: Seq<char>,
    friendly_name: Option<Seq<char>>,
    r: Result<String, TemplateError>,
) -> bool {
    if !engine_accepts(tpl) {
        r is Err
    } else {
        match r {
        Ok(s) => render_spec(tpl, group, name, friendly_name) == Some(s@),
            Err(_) => render_spec(tpl, group, name, friendly_name) is None,
        }
    }
}

/// Rendering is repeatable: two renderings of the same template for the
/// same fields both succeed with the same text, or both fail.
pub proof fn lemma_render_repeatable(
    tpl: Seq<char>,
    group: Seq<char>,
    name: Seq<char>,
    friendly_name: Option<Seq<char>>,
    r1: Result<String, TemplateError>,
    r2: Result<String, TemplateError>,
)
    requires
        render_outcome(tpl, group, name, friendly_name, r1),
        render_outcome(tpl, group, name, friendly_name, r2),
    ensures
        r1 is Ok <==> r2 is Ok,
        r1 is Ok ==> r1->Ok_0@ == r2->Ok_0@,
{
}

} // verus!
