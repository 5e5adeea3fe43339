//! Platform lookups: the user's home directory through the dirs
//! crate, and the decision logic for the shortcut-folder sidebar.
//! The shortcut lookups themselves stay with the surrounding layer:
//! on some platforms dirs parses a user-editable configuration file
//! on those calls and a malformed entry can abort inside it, so the
//! library only takes the answers, and `present_paths` fixes the
//! list that any row of answers gives. The home lookup reads no such
//! file and stays here.
use vstd::prelude::*;

verus! {

pub struct Platform;

/// Relies on dirs::home_dir: the user's home directory, if the
/// platform reports one.
#[verifier::external_body]
fn home_dir_raw() -> Option<String> {
    dirs::home_dir().map(|p| p.to_string_lossy().into_owned())
}

/// The reported paths among a row of optional answers, in the row's
/// order.
pub open spec fn present_of(answers: Seq<Option<String>>) -> Seq<Seq<char>>
    decreases answers.len(),
{
    if answers.len() == 0 {
        Seq::empty()
    } else {
        present_of(answers.drop_last()) + match answers.last() {
            Some(p) => seq![p@],
            None => Seq::empty(),
        }
    }
}

impl Platform {
    /// The fallback root used where no better location is known: the
    /// navigation engine's root-fallback policy takes it as the
    /// default argument.
    pub fn fallback_root() -> (r: String)
        ensures
            r@ == "/"@,
    {
        String::from_str("/")
    }

    /// The location a reported home directory decides: the report
    /// itself where there is one, the fallback otherwise.
    pub fn home_or(reported: Option<String>, fallback: String) -> (r: String)
        ensures
            r@ == match reported {
                Some(p) => p@,
                None => fallback@,
            },
    {
        match reported {
            Some(p) => p,
            None => fallback,
        }
    }

    /// The home directory the platform reports, or the fallback root
    /// where it reports none; `home_or` fixes which of the two comes
    /// back for each answer.
    pub fn home_dir() -> (r: String) {
        Platform::home_or(home_dir_raw(), Platform::fallback_root())
    }

    /// The shortcut list a row of optional answers decides: exactly
    /// the reported paths, in the row's order, the absent ones left
    /// out.
    pub fn present_paths(answers: Vec<Option<String>>) -> (r: Vec<String>)
        ensures
            r@.map_values(|p: String| p@) == present_of(answers@),
            r@.len() <= answers@.len(),
    {
        let mut out: Vec<String> = Vec::new();
        let n: usize = answers.len();
        let mut i: usize = 0;
        while i < n
            invariant
                i <= n == answers@.len(),
                out@.map_values(|p: String| p@) == present_of(answers@.take(i as int)),
                out@.len() <= i,
            decreases n - i,
        {
            proof {
                assert(answers@.take(i + 1).drop_last() =~= answers@.take(i as int));
                assert(answers@.take(i + 1).last() == answers@[i as int]);
            }
            match &answers[i] {
                Some(p) => {
                    out.push(p.clone());
                },
                None => {},
            }
            proof {
                assert(out@.map_values(|p: String| p@) =~= present_of(answers@.take(i + 1)));
            }
            i = i + 1;
        }
        proof {
            assert(answers@.take(n as int) =~= answers@);
        }
        out
    }
}

} // verus!
