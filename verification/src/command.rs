//! External commands as plain data: a program, its arguments, and the
//! directory it runs in. The library only constructs these descriptions;
//! the caller spawns them.

use vstd::prelude::*;

verus! {

/// A fully resolved external command.
pub struct CommandSpec {
    pub program: String,
    pub args: Vec<String>,
    pub current_dir: String,
}

/// The mathematical image of a [`CommandSpec`].
#[verifier::ext_equal]
pub struct CommandModel {
    pub program: Seq<char>,
    pub args: Seq<Seq<char>>,
    pub current_dir: Seq<char>,
}

impl View for CommandSpec {
    type V = CommandModel;

    open spec fn view(&self) -> CommandModel {
        CommandModel {
            program: self.program@,
            args: self.args.deep_view(),
            current_dir: self.current_dir@,
        }
    }
}

/// Copies a vector of strings, keeping every element's characters.
fn clone_strings(v: &Vec<String>) -> (r: Vec<String>)
    ensures
        r.deep_view() == v.deep_view(),
{
    let mut r: Vec<String> = Vec::new();
    let mut i: usize = 0;
    while i < v.len()
        invariant
            i <= v.len(),
            r@.len() == i,
            forall|k: int| 0 <= k < i ==> r@[k]@ == v@[k]@,
        decreases v.len() - i,
    {
        r.push(v[i].clone());
        i += 1;
    }
    proof {
        assert(r.deep_view() =~~= v.deep_view());
    }
    r
}

impl CommandSpec {
    /// Returns a copy of this command description.
    pub fn duplicate(&self) -> (r: CommandSpec)
        ensures
            r@ == self@,
    {
        let r = CommandSpec {
            program: self.program.clone(),
            args: clone_strings(&self.args),
            current_dir: self.current_dir.clone(),
        };
        proof {
            assert(r@ =~~= self@);
        }
        r
    }
}

} // verus!
