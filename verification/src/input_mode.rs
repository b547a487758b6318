use vstd::prelude::*;
use crate::send_buffers::passphrase_mode;

verus! {

/// Which credential a signing form asks for.
#[derive(Clone, PartialEq, Eq, Debug, Structural)]
pub enum InputMode {
    Passphrase,
    Seed,
}

/// The name under which the seed mode is stored.
pub open spec fn seed_mode() -> Seq<char> {
    seq!['S', 'e', 'e', 'd']
}

/// The stored name of a mode.
pub open spec fn mode_name(m: InputMode) -> Seq<char> {
    match m {
        InputMode::Passphrase => passphrase_mode(),
        InputMode::Seed => seed_mode(),
    }
}

/// Reading a stored mode name: exactly `Seed` is the seed mode, anything else is passphrase mode.
pub open spec fn parse_mode(s: Seq<char>) -> InputMode {
    if s == seed_mode() {
        InputMode::Seed
    } else {
        InputMode::Passphrase
    }
}

impl InputMode {
    /// The name under which this mode is stored.
    pub fn to_string(&self) -> (r: String)
        ensures
            r@ == mode_name(*self),
    {
        match self {
            InputMode::Passphrase => {
                let r = "Passphrase".to_owned();
                proof {
                    reveal_strlit("Passphrase");
                    assert(r@ =~= passphrase_mode());
                }
                r
            },
            InputMode::Seed => {
                let r = "Seed".to_owned();
                proof {
                    reveal_strlit("Seed");
                    assert(r@ =~= seed_mode());
                }
                r
            },
        }
    }

    /// The mode a stored name stands for; unknown names fall back to passphrase mode.
    pub fn from_string(s: &str) -> (r: Self)
        ensures
            r == parse_mode(s@),
    {
        let seed = "Seed".to_owned();
        proof {
            reveal_strlit("Seed");
            assert(seed@ =~= seed_mode());
        }
        if s.to_owned() == seed {
            InputMode::Seed
        } else {
            InputMode::Passphrase
        }
    }
}

/// Storing a mode's name and reading it back gives the same mode.
pub proof fn law_mode_round_trip(m: InputMode)
    ensures
        parse_mode(mode_name(m)) == m,
{
    assert(passphrase_mode().len() != seed_mode().len());
}

/// Any name, once read as a mode and stored again, reads back as the same mode.
pub proof fn law_mode_normalizes(s: Seq<char>)
    ensures
        parse_mode(mode_name(parse_mode(s))) == parse_mode(s),
{
    law_mode_round_trip(parse_mode(s));
}

} // verus!
