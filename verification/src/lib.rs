pub mod cv;
pub mod faker_input;
pub mod play;
pub mod text;

use vstd::prelude::*;

verus! {

/// What the screen watcher tells the player loop.
pub enum Communication {
    Ignore,
    WordPart(String),
    GameStart((i32, i32)),
}

} // verus!
