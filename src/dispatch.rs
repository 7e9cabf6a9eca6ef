use vstd::prelude::*;
use crate::config::{AlertKind, TemplateConfig};
use crate::template::{render, render_outcome, TemplateError};

verus! {

/// An incoming alert: its kind, the group and service it comes from, and a
/// free-text description that is carried along but not rendered.
#[derive(Debug)]
pub struct AlertEvent {
    pub kind: AlertKind,
    pub group: String,
    pub name: String,
    pub description: Option<String>,
}

/// What to do with the rendered text.
#[derive(Debug, PartialEq, Eq)]
pub enum Action {
    /// Post the text.
    Publish(String),
    /// Live mode is off: the text is not posted.
    Skip(String),
}

/// The action that a rendering outcome leads to in the given mode.
pub open spec fn action_for(rendered: Result<String, TemplateError>, live: bool, r: Result<Action, TemplateError>) -> bool {
    match rendered {
        Ok(text) => if live {
            r == Ok::<Action, TemplateError>(Action::Publish(text))
        } else {
            r == Ok::<Action, TemplateError>(Action::Skip(text))
        },
        Err(e) => r == Err::<Action, TemplateError>(e),
    }
}

/// Decides what to do with a rendering outcome: publish it when live, skip
/// it otherwise; a rendering error is passed on.
pub fn decide(rendered: Result<String, TemplateError>, live: bool) -> (r: Result<Action, TemplateError>)
    ensures
        action_for(rendered, live, r),
{
    match rendered {
        Ok(text) => if live {
            Ok(Action::Publish(text))
        } else {
            Ok(Action::Skip(text))
        },
        Err(e) => Err(e),
    }
}

/// Resolves the template for `event`, renders it, and decides whether the
/// text is posted. The publisher is asked only where this returns
/// `Action::Publish`.
pub fn handle(config: &TemplateConfig, live: bool, event: &AlertEvent) -> (r: Result<Action, TemplateError>)
    ensures
        exists|rendered: Result<String, TemplateError>|
            render_outcome(
                config.resolve_spec(event.group@, event.name@, event.kind).0,
                event.group@,
                event.name@,
                config.resolve_spec(event.group@, event.name@, event.kind).1,
                rendered,
            ) && #[trigger] action_for(rendered, live, r),
        !live ==> !(r matches Ok(Action::Publish(_))),
{
    let (tpl, friendly) = config.resolve(event.group.as_str(), event.name.as_str(), event.kind);
    let rendered = render(tpl, event.group.as_str(), event.name.as_str(), friendly);
    let r = decide(rendered, live);
    assert(action_for(rendered, live, r));
    r
}

} // verus!
