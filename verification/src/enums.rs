//! Enums and pattern matching.
//!
//! An enum is a sum of variants; a match takes it apart. The spec
//! functions here restate each match arm, so the contracts pin the
//! result for every variant, not just the ones a demonstration happens
//! to build.

use vstd::prelude::*;

verus! {

/// A message with four shapes of payload: none, named fields, a heap
/// string, and three plain integers.
pub enum Message {
    Quit,
    Move { x: i32, y: i32 },
    Write(String),
    ChangeColor(i32, i32, i32),
}

/// Builds one value of each variant.
pub fn enums_usage() -> (r: (Message, Message, Message, Message))
    ensures
        r.0 is Quit,
        r.1 == (Message::Move { x: 0, y: 0 }),
        r.2 is Write && r.2->Write_0@ == "hello"@,
        r.3 == Message::ChangeColor(0, 5, 7),
{
    let quit_message: Message = Message::Quit;
    let move_message: Message = Message::Move { x: 0, y: 0 };
    let write_message: Message = Message::Write(String::from_str("hello"));
    let color_message: Message = Message::ChangeColor(0, 5, 7);
    (quit_message, move_message, write_message, color_message)
}

/// What `matching` returns for each input: zero selects `Quit`, which
/// the second match passes through; anything else builds a `Move` that
/// the wildcard-free arm rewrites to the origin.
pub open spec fn matching_spec(n: i32) -> Message {
    if n == 0 {
        Message::Quit
    } else {
        Message::Move { x: 0, y: 0 }
    }
}

/// Matches on an integer to build a message, rebuilds it arm by arm,
/// then rewrites it with wildcard and binding patterns.
pub fn matching(n: i32) -> (m: Message)
    ensures
        m == matching_spec(n),
{
    let msg: Message = match n {
        0 => Message::Quit,
        m => Message::Move { x: m, y: m },
    };

    let msg1: Message = match msg {
        Message::Move { x: x_val, y: y_val } => Message::Move { x: x_val, y: y_val },
        Message::Write(s) => Message::Write(s),
        Message::ChangeColor(r, g, b) => Message::ChangeColor(r, g, b),
        Message::Quit => Message::Quit,
    };

    let msg2: Message = match msg1 {
        q_msg@Message::Quit => q_msg,
        Message::Move { x: _, y: _ } => Message::Move { x: 0, y: 0 },
        _ => Message::Write(String::from_str("Default")),
    };
    msg2
}

/// What the reference-pattern matches preserve: moves and writes pass
/// through with their payloads; everything else collapses to `Quit`.
pub open spec fn matching_with_refs_spec(msg: Message) -> Message {
    match msg {
        Message::Move { x, y } => Message::Move { x, y },
        Message::Write(s) => Message::Write(s),
        _ => Message::Quit,
    }
}

/// Matches by value, then with `ref` bindings, then on a reference;
/// each pass keeps the payload it found.
pub fn matching_with_refs(msg: Message) -> (r: Message)
    ensures
        r == matching_with_refs_spec(msg),
{
    let msg1: Message = match msg {
        Message::Move { x: x_val, y: y_val } => Message::Move { x: x_val, y: y_val },
        Message::Write(s) => Message::Write(s),
        _ => Message::Quit,
    };

    let msg2: Message = match msg1 {
        Message::Move { x: ref x_ref, y: ref y_ref } => Message::Move { x: *x_ref, y: *y_ref },
        Message::Write(ref s) => Message::Write(s.clone()),
        ref msg => Message::Quit,
    };

    let msg3: Message = match &msg2 {
        Message::Move { x: x_ref, y: y_ref } => Message::Move { x: *x_ref, y: *y_ref },
        Message::Write(s) => Message::Write(s.clone()),
        msg => Message::Quit,
    };
    msg3
}

/// Picks one variant apart with `if let`, three times over; a `Write`
/// survives with its string, anything else becomes `Quit`.
pub fn matching_with_if_let(msg: Message) -> (r: Message)
    ensures
        msg is Write ==> r == msg,
        !(msg is Write) ==> r is Quit,
{
    let msg1: Message = if let Message::Write(s) = msg {
        Message::Write(s)
    } else {
        Message::Quit
    };

    let msg2: Message = if let Message::Write(ref s) = msg1 {
        Message::Write(s.clone())
    } else {
        Message::Quit
    };

    let msg3: Message = if let Message::Write(s) = &msg2 {
        Message::Write(s.clone())
    } else {
        Message::Quit
    };
    msg3
}

} // verus!
