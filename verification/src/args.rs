//! Command-line options.
use crate::text::same_text;
use vstd::prelude::*;

verus! {

pub struct GameArgs {
    /// Throw away the existing save and start over.
    pub new_game: bool,
}

impl GameArgs {
    /// The options that the arguments name: `--new-game` anywhere among
    /// them asks for a new game.
    pub fn from_args(args: &Vec<String>) -> (r: GameArgs)
        ensures
            r.new_game <==> exists|i: int| 0 <= i < args@.len() && #[trigger] args@[i]@ == "--new-game"@,
    {
        let mut found = false;
        let mut i: usize = 0;
        while i < args.len()
            invariant
                i <= args@.len(),
                found <==> exists|j: int| 0 <= j < i && #[trigger] args@[j]@ == "--new-game"@,
            decreases args@.len() - i,
        {
            if same_text(args[i].as_str(), "--new-game") {
                found = true;
            }
            i = i + 1;
        }
        GameArgs { new_game: found }
    }
}

} // verus!
