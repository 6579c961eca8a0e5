//! The message codec: one decoded frame becomes one command, or a parse
//! failure.
//!
//! The wire format is a JSON array whose first element is a string tag:
//! `["m", dx, dy]`, `["b", "l"|"r", count]`, `["w", dy]`, `["t", text]`,
//! `["k", keyName]` or `["ping"]`.  `spec_decode` states the whole mapping,
//! including exactly which error each malformed frame yields; `decode_doc`
//! and `parse_frame` are proved against it.

use vstd::prelude::*;
use crate::frame::{doc_of, read_doc, Doc, DocModel, Elem, ElemModel};

verus! {

/// A mouse button the protocol can click.
#[derive(Clone, Copy, Debug, PartialEq, Eq, Structural)]
pub enum MouseButton {
    Left,
    Right,
}

/// The closed set of key identifiers the actuator can press.
///
/// These are the identifiers handed to the input device, not the wire names:
/// the wire name `"Delete"` resolves to `Backspace`, a deliberate quirk of
/// the protocol that is preserved here.
#[derive(Clone, Copy, Debug, PartialEq, Eq, Structural)]
pub enum NamedKey {
    Escape,
    PageUp,
    PageDown,
    Backspace,
    Return,
}

/// One parsed command, ready for dispatch.
#[derive(Debug, Clone)]
pub enum Command {
    /// Move the pointer by a relative delta.
    MouseMove { dx: i32, dy: i32 },
    /// Click a button `count` times in sequence.
    ButtonClick { button: MouseButton, count: u32 },
    /// Scroll by a signed amount; positive means scroll up.
    Wheel { dy: i32 },
    /// Insert the text as literal characters.
    TextInput { text: String },
    /// Press and release one named key.
    KeyPress { key: NamedKey },
    /// Heartbeat; produces no actuator effect.
    Ping,
}

/// The mathematical model of a `Command`.
pub ghost enum CommandModel {
    MouseMove { dx: i32, dy: i32 },
    ButtonClick { button: MouseButton, count: u32 },
    Wheel { dy: i32 },
    TextInput { text: Seq<char> },
    KeyPress { key: NamedKey },
    Ping,
}

impl View for Command {
    type V = CommandModel;

    open spec fn view(&self) -> CommandModel {
        match self {
            Command::MouseMove { dx, dy } => CommandModel::MouseMove { dx: *dx, dy: *dy },
            Command::ButtonClick { button, count } => CommandModel::ButtonClick {
                button: *button,
                count: *count,
            },
            Command::Wheel { dy } => CommandModel::Wheel { dy: *dy },
            Command::TextInput { text } => CommandModel::TextInput { text: text@ },
            Command::KeyPress { key } => CommandModel::KeyPress { key: *key },
            Command::Ping => CommandModel::Ping,
        }
    }
}

/// Every way one frame can fail to become a command.
#[derive(Clone, Copy, Debug, PartialEq, Eq, Structural)]
pub enum CodecError {
    /// The payload is not parseable as structured data at all.
    MalformedPayload,
    /// The payload parsed, but the top-level value is not an array.
    NotAnArray,
    /// The top-level array has zero elements.
    EmptyArray,
    /// The first element is not a string.
    MissingTag,
    /// A required positional argument is absent.
    ArityError,
    /// A present argument has the wrong shape.
    TypeError,
    /// The tag is outside the closed set of commands.
    UnknownCommand,
    /// A `"k"` frame carries a key name outside the closed enumeration.
    UnknownKeyName,
    /// A `"b"` frame carries a button name outside the closed enumeration.
    UnknownButtonName,
}

/// The signed 32-bit reading of an element: a number with an exact signed
/// 64-bit reading that also fits in 32 bits.
pub open spec fn spec_as_i32(e: ElemModel) -> Option<i32> {
    match e {
        ElemModel::Int(i) => if i32::MIN as i64 <= i && i <= i32::MAX as i64 {
            Some(i as i32)
        } else {
            None
        },
        _ => None,
    }
}

/// The unsigned 32-bit reading of an element, for the click count.
pub open spec fn spec_as_u32(e: ElemModel) -> Option<u32> {
    match e {
        ElemModel::Int(i) => if 0 <= i && i <= u32::MAX as i64 {
            Some(i as u32)
        } else {
            None
        },
        _ => None,
    }
}

/// Which button a wire name denotes, over the closed set `"l"`, `"r"`.
pub open spec fn spec_button(name: Seq<char>) -> Option<MouseButton> {
    if name == "l"@ {
        Some(MouseButton::Left)
    } else if name == "r"@ {
        Some(MouseButton::Right)
    } else {
        None
    }
}

/// Which key identifier a wire name denotes.  The wire name `"Delete"`
/// deliberately resolves to `Backspace`.
pub open spec fn spec_key(name: Seq<char>) -> Option<NamedKey> {
    if name == "Escape"@ {
        Some(NamedKey::Escape)
    } else if name == "PageUp"@ {
        Some(NamedKey::PageUp)
    } else if name == "PageDown"@ {
        Some(NamedKey::PageDown)
    } else if name == "Delete"@ {
        Some(NamedKey::Backspace)
    } else if name == "Return"@ {
        Some(NamedKey::Return)
    } else {
        None
    }
}

/// Decoding of a `["m", dx, dy]` frame body.
pub open spec fn spec_decode_move(es: Seq<ElemModel>) -> Result<CommandModel, CodecError> {
    if es.len() < 3 {
        Err(CodecError::ArityError)
    } else {
        match (spec_as_i32(es[1]), spec_as_i32(es[2])) {
            (Some(dx), Some(dy)) => Ok(CommandModel::MouseMove { dx, dy }),
            _ => Err(CodecError::TypeError),
        }
    }
}

/// Decoding of a `["b", button, count]` frame body.
pub open spec fn spec_decode_click(es: Seq<ElemModel>) -> Result<CommandModel, CodecError> {
    if es.len() < 3 {
        Err(CodecError::ArityError)
    } else {
        match es[1] {
            ElemModel::Str(name) => match spec_as_u32(es[2]) {
                Some(count) => match spec_button(name) {
                    Some(button) => Ok(CommandModel::ButtonClick { button, count }),
                    None => Err(CodecError::UnknownButtonName),
                },
                None => Err(CodecError::TypeError),
            },
            _ => Err(CodecError::TypeError),
        }
    }
}

/// Decoding of a `["w", dy]` frame body.
pub open spec fn spec_decode_wheel(es: Seq<ElemModel>) -> Result<CommandModel, CodecError> {
    if es.len() < 2 {
        Err(CodecError::ArityError)
    } else {
        match spec_as_i32(es[1]) {
            Some(dy) => Ok(CommandModel::Wheel { dy }),
            None => Err(CodecError::TypeError),
        }
    }
}

/// Decoding of a `["t", text]` frame body.
pub open spec fn spec_decode_text(es: Seq<ElemModel>) -> Result<CommandModel, CodecError> {
    if es.len() < 2 {
        Err(CodecError::ArityError)
    } else {
        match es[1] {
            ElemModel::Str(text) => Ok(CommandModel::TextInput { text }),
            _ => Err(CodecError::TypeError),
        }
    }
}

/// Decoding of a `["k", keyName]` frame body.
pub open spec fn spec_decode_key(es: Seq<ElemModel>) -> Result<CommandModel, CodecError> {
    if es.len() < 2 {
        Err(CodecError::ArityError)
    } else {
        match es[1] {
            ElemModel::Str(name) => match spec_key(name) {
                Some(key) => Ok(CommandModel::KeyPress { key }),
                None => Err(CodecError::UnknownKeyName),
            },
            _ => Err(CodecError::TypeError),
        }
    }
}

/// Decoding of a tagged array, by the closed set of tags.
pub open spec fn spec_decode_tagged(tag: Seq<char>, es: Seq<ElemModel>) -> Result<
    CommandModel,
    CodecError,
> {
    if tag == "m"@ {
        spec_decode_move(es)
    } else if tag == "b"@ {
        spec_decode_click(es)
    } else if tag == "w"@ {
        spec_decode_wheel(es)
    } else if tag == "t"@ {
        spec_decode_text(es)
    } else if tag == "k"@ {
        spec_decode_key(es)
    } else if tag == "ping"@ {
        Ok(CommandModel::Ping)
    } else {
        Err(CodecError::UnknownCommand)
    }
}

/// What one decoded frame means: the command it carries, or the exact error
/// it is rejected with.
pub open spec fn spec_decode(d: DocModel) -> Result<CommandModel, CodecError> {
    match d {
        DocModel::Malformed => Err(CodecError::MalformedPayload),
        DocModel::NotArray => Err(CodecError::NotAnArray),
        DocModel::Arr(es) => if es.len() == 0 {
            Err(CodecError::EmptyArray)
        } else {
            match es[0] {
                ElemModel::Str(tag) => spec_decode_tagged(tag, es),
                _ => Err(CodecError::MissingTag),
            }
        },
    }
}

/// The model of a decode result: the command's model on success, the error
/// itself on failure.
pub open spec fn result_model(r: Result<Command, CodecError>) -> Result<CommandModel, CodecError> {
    match r {
        Ok(c) => Ok(c@),
        Err(e) => Err(e),
    }
}

/// Whether a string slice holds exactly the given characters.
fn str_is(t: &String, lit: &str) -> (r: bool)
    ensures
        r == (t@ == lit@),
{
    let owned: String = lit.to_owned();
    t.eq(&owned)
}

/// The signed 32-bit reading of an element.
fn elem_as_i32(e: &Elem) -> (r: Option<i32>)
    ensures
        r == spec_as_i32(e@),
{
    match e {
        Elem::Int(i) => if i32::MIN as i64 <= *i && *i <= i32::MAX as i64 {
            Some(*i as i32)
        } else {
            None
        },
        _ => None,
    }
}

/// The unsigned 32-bit reading of an element.
fn elem_as_u32(e: &Elem) -> (r: Option<u32>)
    ensures
        r == spec_as_u32(e@),
{
    match e {
        Elem::Int(i) => if 0 <= *i && *i <= u32::MAX as i64 {
            Some(*i as u32)
        } else {
            None
        },
        _ => None,
    }
}

/// Resolve a wire button name.
fn resolve_button(name: &String) -> (r: Option<MouseButton>)
    ensures
        r == spec_button(name@),
{
    if str_is(name, "l") {
        Some(MouseButton::Left)
    } else if str_is(name, "r") {
        Some(MouseButton::Right)
    } else {
        None
    }
}

/// Resolve a wire key name to the actuator's key identifier.
fn resolve_key(name: &String) -> (r: Option<NamedKey>)
    ensures
        r == spec_key(name@),
{
    if str_is(name, "Escape") {
        Some(NamedKey::Escape)
    } else if str_is(name, "PageUp") {
        Some(NamedKey::PageUp)
    } else if str_is(name, "PageDown") {
        Some(NamedKey::PageDown)
    } else if str_is(name, "Delete") {
        Some(NamedKey::Backspace)
    } else if str_is(name, "Return") {
        Some(NamedKey::Return)
    } else {
        None
    }
}

/// Decode one structured frame into a command, or the exact error that
/// rejects it.
pub fn decode_doc(d: &Doc) -> (r: Result<Command, CodecError>)
    ensures
        result_model(r) == spec_decode(d@),
{
    let es = match d {
        Doc::Malformed => {
            return Err(CodecError::MalformedPayload);
        },
        Doc::NotArray => {
            return Err(CodecError::NotAnArray);
        },
        Doc::Arr(es) => es,
    };
    if es.len() == 0 {
        return Err(CodecError::EmptyArray);
    }
    let tag = match &es[0] {
        Elem::Str(tag) => tag,
        _ => {
            return Err(CodecError::MissingTag);
        },
    };
    if str_is(tag, "m") {
        decode_move(es)
    } else if str_is(tag, "b") {
        decode_click(es)
    } else if str_is(tag, "w") {
        decode_wheel(es)
    } else if str_is(tag, "t") {
        decode_text(es)
    } else if str_is(tag, "k") {
        decode_key(es)
    } else if str_is(tag, "ping") {
        Ok(Command::Ping)
    } else {
        Err(CodecError::UnknownCommand)
    }
}

/// Decode the body of a `["m", dx, dy]` frame.
fn decode_move(es: &Vec<Elem>) -> (r: Result<Command, CodecError>)
    ensures
        result_model(r) == spec_decode_move(es@.map_values(|e: Elem| e@)),
{
    if es.len() < 3 {
        return Err(CodecError::ArityError);
    }
    let dx = match elem_as_i32(&es[1]) {
        Some(dx) => dx,
        None => {
            return Err(CodecError::TypeError);
        },
    };
    let dy = match elem_as_i32(&es[2]) {
        Some(dy) => dy,
        None => {
            return Err(CodecError::TypeError);
        },
    };
    Ok(Command::MouseMove { dx, dy })
}

/// Decode the body of a `["b", button, count]` frame.
fn decode_click(es: &Vec<Elem>) -> (r: Result<Command, CodecError>)
    ensures
        result_model(r) == spec_decode_click(es@.map_values(|e: Elem| e@)),
{
    if es.len() < 3 {
        return Err(CodecError::ArityError);
    }
    let name = match &es[1] {
        Elem::Str(name) => name,
        _ => {
            return Err(CodecError::TypeError);
        },
    };
    let count = match elem_as_u32(&es[2]) {
        Some(count) => count,
        None => {
            return Err(CodecError::TypeError);
        },
    };
    match resolve_button(name) {
        Some(button) => Ok(Command::ButtonClick { button, count }),
        None => Err(CodecError::UnknownButtonName),
    }
}

/// Decode the body of a `["w", dy]` frame.
fn decode_wheel(es: &Vec<Elem>) -> (r: Result<Command, CodecError>)
    ensures
        result_model(r) == spec_decode_wheel(es@.map_values(|e: Elem| e@)),
{
    if es.len() < 2 {
        return Err(CodecError::ArityError);
    }
    match elem_as_i32(&es[1]) {
        Some(dy) => Ok(Command::Wheel { dy }),
        None => Err(CodecError::TypeError),
    }
}

/// Decode the body of a `["t", text]` frame.
fn decode_text(es: &Vec<Elem>) -> (r: Result<Command, CodecError>)
    ensures
        result_model(r) == spec_decode_text(es@.map_values(|e: Elem| e@)),
{
    if es.len() < 2 {
        return Err(CodecError::ArityError);
    }
    match &es[1] {
        Elem::Str(text) => Ok(Command::TextInput { text: text.clone() }),
        _ => Err(CodecError::TypeError),
    }
}

/// Decode the body of a `["k", keyName]` frame.
fn decode_key(es: &Vec<Elem>) -> (r: Result<Command, CodecError>)
    ensures
        result_model(r) == spec_decode_key(es@.map_values(|e: Elem| e@)),
{
    if es.len() < 2 {
        return Err(CodecError::ArityError);
    }
    let name = match &es[1] {
        Elem::Str(name) => name,
        _ => {
            return Err(CodecError::TypeError);
        },
    };
    match resolve_key(name) {
        Some(key) => Ok(Command::KeyPress { key }),
        None => Err(CodecError::UnknownKeyName),
    }
}

/// Parse one textual frame into a command, or the exact error that rejects
/// it.  The whole mapping, error taxonomy included, is pinned by
/// `spec_decode` over the structured reading of the text.
pub fn parse_frame(text: &str) -> (r: Result<Command, CodecError>)
    ensures
        result_model(r) == spec_decode(doc_of(text@)),
{
    let d = read_doc(text);
    decode_doc(&d)
}

} // verus!
