//! The decisions of the capture trial: a program that captures input at all
//! four edges, says what it sees, and gives the input back when escape is
//! pressed.

use crate::capture::CaptureHandle;
use crate::event::{InputEvent, KeyboardEvent, Position};
use vstd::prelude::*;

verus! {

/// The key that ends the trial: escape.
pub const RELEASE_KEY: u32 = 1;

/// The edge that barrier `client` of the trial stands for: the first four
/// barriers are left, right, top and bottom, and every other is bottom.
pub open spec fn trial_position(client: CaptureHandle) -> Position {
    if client == 0 {
        Position::Left
    } else if client == 1 {
        Position::Right
    } else if client == 2 {
        Position::Top
    } else {
        Position::Bottom
    }
}

/// The edge that barrier `client` of the trial stands for.
pub fn position_of(client: CaptureHandle) -> (pos: Position)
    ensures
        pos == trial_position(client),
{
    match client {
        0 => Position::Left,
        1 => Position::Right,
        2 => Position::Top,
        _ => Position::Bottom,
    }
}

/// The barriers that the trial sets up: one at each edge.
pub fn barriers() -> (list: Vec<(CaptureHandle, Position)>)
    ensures
        list@.len() == 4,
        forall|i: int| 0 <= i < 4 ==> list@[i] == (i as CaptureHandle, trial_position(i as u64)),
{
    let mut list: Vec<(CaptureHandle, Position)> = Vec::new();
    let mut client: CaptureHandle = 0;
    while client < 4
        invariant
            client <= 4,
            list@.len() == client,
            forall|i: int|
                0 <= i < client ==> list@[i] == (i as CaptureHandle, trial_position(i as u64)),
        decreases 4 - client,
    {
        list.push((client, position_of(client)));
        client += 1;
    }
    list
}

/// Whether `event` ends the trial: it is an event of the escape key, a press
/// or a release.
pub fn ends_trial(event: InputEvent) -> (ends: bool)
    ensures
        ends == (event matches InputEvent::Keyboard(KeyboardEvent::Key { key, .. }) && key
            == RELEASE_KEY),
{
    match event {
        InputEvent::Keyboard(KeyboardEvent::Key { time: _, key, state: _ }) => key == RELEASE_KEY,
        _ => false,
    }
}

} // verus!
