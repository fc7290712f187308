//! Encoding a user intent into the gateway's action-group request shape.
//!
//! An intent — open, close, or move to a closure percentage — plus a target
//! device identifier becomes one action group holding exactly one action
//! with exactly one command. The command name is fixed per intent; the
//! parameter list is empty except for a closure intent, whose percentage
//! travels as its decimal string form, mirroring the gateway's string-typed
//! parameter contract. The label is advisory text only.
//!
//! The request types here hold the same fields as the API client's wire
//! types; the layer that owns the network handle converts one-for-one.

use vstd::prelude::*;

use crate::text::decimal_spec;
use crate::text::u8_to_decimal;

verus! {

/// A user intent for a motorized device.
#[derive(Clone, Copy, Debug)]
pub enum OpenClose {
    /// Completely open the device.
    Open,
    /// Completely close the device.
    Close,
    /// Move the device to a closure percentage. Out-of-range values are
    /// passed through unchanged; range checking belongs to the argument
    /// layer.
    Closure(u8),
}

/// One device command: a name and its string-typed parameters.
#[derive(Clone, Debug)]
pub struct Command {
    pub name: String,
    pub parameters: Vec<String>,
}

/// One action: the device it addresses and the commands to run on it.
#[derive(Clone, Debug)]
pub struct Action {
    pub device_url: String,
    pub commands: Vec<Command>,
}

/// An action group: an advisory label and the actions submitted together.
#[derive(Clone, Debug)]
pub struct ActionGroup {
    pub label: Option<String>,
    pub actions: Vec<Action>,
}

/// The command name an intent maps to.
pub open spec fn command_name_spec(state: OpenClose) -> Seq<char> {
    match state {
        OpenClose::Open => "open"@,
        OpenClose::Close => "close"@,
        OpenClose::Closure(_) => "setClosure"@,
    }
}

/// The parameter list an intent maps to: empty, except for a closure
/// intent, which carries its percentage's decimal string form.
pub open spec fn command_params_spec(state: OpenClose) -> Seq<Seq<char>> {
    match state {
        OpenClose::Closure(p) => seq![decimal_spec(p as nat)],
        _ => Seq::empty(),
    }
}

/// What it means for an action group to encode an intent against a device:
/// exactly one action on that device, with exactly one command whose name
/// and parameters are the intent's, and a label of the form
/// `"{command name} {device identifier}"`.
pub open spec fn encodes(g: ActionGroup, state: OpenClose, device_url: Seq<char>) -> bool {
    &&& g.label matches Some(l) && l@ == command_name_spec(state) + seq![' '] + device_url
    &&& g.actions.len() == 1
    &&& g.actions[0].device_url@ == device_url
    &&& g.actions[0].commands.len() == 1
    &&& g.actions[0].commands[0].name@ == command_name_spec(state)
    &&& g.actions[0].commands[0].parameters.deep_view() == command_params_spec(state)
}

impl OpenClose {
    /// The gateway command name for this intent.
    pub fn command_name(&self) -> (s: String)
        ensures
            s@ == command_name_spec(*self),
    {
        match self {
            OpenClose::Open => "open".to_owned(),
            OpenClose::Close => "close".to_owned(),
            OpenClose::Closure(_) => "setClosure".to_owned(),
        }
    }

    /// The gateway command parameters for this intent.
    pub fn command_parameters(&self) -> (v: Vec<String>)
        ensures
            v.deep_view() == command_params_spec(*self),
    {
        match self {
            OpenClose::Closure(p) => {
                let mut v: Vec<String> = Vec::new();
                v.push(u8_to_decimal(*p));
                proof {
                    assert(v.deep_view() =~= command_params_spec(*self));
                }
                v
            },
            _ => {
                let v: Vec<String> = Vec::new();
                proof {
                    assert(v.deep_view() =~= command_params_spec(*self));
                }
                v
            },
        }
    }
}

/// Encode an intent and a device identifier into the action-group request
/// submitted to the gateway: pure, and fully determined by its inputs.
pub fn encode_action_group(state: OpenClose, device_url: String) -> (g: ActionGroup)
    ensures
        encodes(g, state, device_url@),
{
    let params = state.command_parameters();
    let name = state.command_name();
    proof {
        reveal_strlit(" ");
    }
    let mut label = name.clone();
    label.append(" ");
    label.append(device_url.as_str());
    proof {
        assert(label@ =~= command_name_spec(state) + seq![' '] + device_url@);
    }
    let command = Command { name, parameters: params };
    let mut commands: Vec<Command> = Vec::new();
    commands.push(command);
    let action = Action { device_url, commands };
    let mut actions: Vec<Action> = Vec::new();
    actions.push(action);
    ActionGroup { label: Some(label), actions }
}

/// Encoding is pure: two action groups that encode the same intent against
/// the same device identifier agree in every observable field.
pub proof fn lemma_encode_deterministic(
    g1: ActionGroup,
    g2: ActionGroup,
    state: OpenClose,
    device_url: Seq<char>,
)
    requires
        encodes(g1, state, device_url),
        encodes(g2, state, device_url),
    ensures
        g1.label.unwrap()@ == g2.label.unwrap()@,
        g1.actions.len() == g2.actions.len(),
        g1.actions[0].device_url@ == g2.actions[0].device_url@,
        g1.actions[0].commands.len() == g2.actions[0].commands.len(),
        g1.actions[0].commands[0].name@ == g2.actions[0].commands[0].name@,
        g1.actions[0].commands[0].parameters.deep_view() == g2.actions[0].commands[
            0
        ].parameters.deep_view(),
{
}

/// A closure intent always encodes to exactly one parameter: the
/// percentage's decimal string form.
pub proof fn lemma_closure_parameter(g: ActionGroup, p: u8, device_url: Seq<char>)
    requires
        encodes(g, OpenClose::Closure(p), device_url),
    ensures
        g.actions[0].commands[0].name@ == "setClosure"@,
        g.actions[0].commands[0].parameters.deep_view().len() == 1,
        g.actions[0].commands[0].parameters.deep_view()[0] == decimal_spec(p as nat),
{
}

} // verus!
