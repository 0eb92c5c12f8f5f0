//! The zones of the warehouse floor: a closed set of thirteen locations,
//! each with a short upper-case token that is stored and typed.

use crate::text::{char_upper, chars_of, upper_all};
use vstd::prelude::*;
use vstd::string::StringExecFns;

verus! {

/// A storage location on the warehouse floor.
#[derive(Clone, Copy, Debug, PartialEq, Eq, Hash, Structural)]
pub enum Zone {
    A,
    B,
    C,
    D,
    E1,
    E2,
    E3,
    E4,
    E5,
    E6,
    E7,
    E8,
    E9,
}

impl Zone {
    /// Every zone, in the order in which they are listed and laid out.
    pub const ALL: [Zone; 13] = [
        Zone::A,
        Zone::B,
        Zone::C,
        Zone::D,
        Zone::E1,
        Zone::E2,
        Zone::E3,
        Zone::E4,
        Zone::E5,
        Zone::E6,
        Zone::E7,
        Zone::E8,
        Zone::E9,
    ];

    /// Every zone, in listing order.
    pub open spec fn all() -> Seq<Zone> {
        seq![
            Zone::A,
            Zone::B,
            Zone::C,
            Zone::D,
            Zone::E1,
            Zone::E2,
            Zone::E3,
            Zone::E4,
            Zone::E5,
            Zone::E6,
            Zone::E7,
            Zone::E8,
            Zone::E9,
        ]
    }

    /// The position of the zone in `all()`.
    pub open spec fn ordinal(self) -> nat {
        match self {
            Zone::A => 0,
            Zone::B => 1,
            Zone::C => 2,
            Zone::D => 3,
            Zone::E1 => 4,
            Zone::E2 => 5,
            Zone::E3 => 6,
            Zone::E4 => 7,
            Zone::E5 => 8,
            Zone::E6 => 9,
            Zone::E7 => 10,
            Zone::E8 => 11,
            Zone::E9 => 12,
        }
    }

    /// The token of the zone: what is stored for it and what a user types.
    pub open spec fn token(self) -> Seq<char> {
        match self {
            Zone::A => seq!['A'],
            Zone::B => seq!['B'],
            Zone::C => seq!['C'],
            Zone::D => seq!['D'],
            Zone::E1 => seq!['E', '1'],
            Zone::E2 => seq!['E', '2'],
            Zone::E3 => seq!['E', '3'],
            Zone::E4 => seq!['E', '4'],
            Zone::E5 => seq!['E', '5'],
            Zone::E6 => seq!['E', '6'],
            Zone::E7 => seq!['E', '7'],
            Zone::E8 => seq!['E', '8'],
            Zone::E9 => seq!['E', '9'],
        }
    }

    /// The zone that `s` names: the one whose token is the upper-case form
    /// of `s`, if there is one.
    pub open spec fn parse(s: Seq<char>) -> Option<Zone> {
        if exists|z: Zone| #[trigger] z.token() == upper_all(s) {
            Some(choose|z: Zone| #[trigger] z.token() == upper_all(s))
        } else {
            None
        }
    }

    /// The rows in which the zones are laid out: four, five and four.
    pub open spec fn layout() -> Seq<Seq<Zone>> {
        seq![
            seq![Zone::A, Zone::B, Zone::C, Zone::D],
            seq![Zone::E1, Zone::E2, Zone::E3, Zone::E4, Zone::E5],
            seq![Zone::E6, Zone::E7, Zone::E8, Zone::E9],
        ]
    }

    /// What `try_from` answers to a text that names no zone.
    pub open spec fn unknown(s: Seq<char>) -> Seq<char> {
        seq!['u', 'n', 'k', 'n', 'o', 'w', 'n', ' ', 'z', 'o', 'n', 'e', ':', ' '] + s
    }

    /// The position of the zone in `ALL`.
    pub fn index(self) -> (i: usize)
        ensures
            i == self.ordinal(),
            i < 13,
    {
        match self {
            Zone::A => 0,
            Zone::B => 1,
            Zone::C => 2,
            Zone::D => 3,
            Zone::E1 => 4,
            Zone::E2 => 5,
            Zone::E3 => 6,
            Zone::E4 => 7,
            Zone::E5 => 8,
            Zone::E6 => 9,
            Zone::E7 => 10,
            Zone::E8 => 11,
            Zone::E9 => 12,
        }
    }

    /// The zone at position `i` of `ALL`.
    pub fn from_index(i: usize) -> (z: Option<Zone>)
        ensures
            match z {
                Some(z) => z.ordinal() == i,
                None => i >= 13,
            },
    {
        if i < 13 {
            Some(Zone::ALL[i])
        } else {
            None
        }
    }

    /// The token of the zone.
    pub fn to_string(&self) -> (s: String)
        ensures
            s@ == self.token(),
    {
        let mut s = String::new();
        match self {
            Zone::A => s.push('A'),
            Zone::B => s.push('B'),
            Zone::C => s.push('C'),
            Zone::D => s.push('D'),
            Zone::E1 => {
                s.push('E');
                s.push('1')
            },
            Zone::E2 => {
                s.push('E');
                s.push('2')
            },
            Zone::E3 => {
                s.push('E');
                s.push('3')
            },
            Zone::E4 => {
                s.push('E');
                s.push('4')
            },
            Zone::E5 => {
                s.push('E');
                s.push('5')
            },
            Zone::E6 => {
                s.push('E');
                s.push('6')
            },
            Zone::E7 => {
                s.push('E');
                s.push('7')
            },
            Zone::E8 => {
                s.push('E');
                s.push('8')
            },
            Zone::E9 => {
                s.push('E');
                s.push('9')
            },
        }
        assert(s@ =~= self.token());
        s
    }

    /// Reads a zone from its token, in either case. A text that names no
    /// zone is invalid and is answered with a message that quotes it.
    pub fn try_from(s: &str) -> (r: Result<Zone, String>)
        ensures
            match r {
                Ok(z) => Zone::parse(s@) == Some(z),
                Err(msg) => Zone::parse(s@) is None && msg@ == Zone::unknown(s@),
            },
    {
        let v = chars_of(s);
        let ghost u = upper_all(s@);
        let found = if v.len() == 1 {
            let c = char_upper(v[0]);
            if c == 'A' {
                Some(Zone::A)
            } else if c == 'B' {
                Some(Zone::B)
            } else if c == 'C' {
                Some(Zone::C)
            } else if c == 'D' {
                Some(Zone::D)
            } else {
                None
            }
        } else if v.len() == 2 && char_upper(v[0]) == 'E' {
            let c = char_upper(v[1]);
            if c == '1' {
                Some(Zone::E1)
            } else if c == '2' {
                Some(Zone::E2)
            } else if c == '3' {
                Some(Zone::E3)
            } else if c == '4' {
                Some(Zone::E4)
            } else if c == '5' {
                Some(Zone::E5)
            } else if c == '6' {
                Some(Zone::E6)
            } else if c == '7' {
                Some(Zone::E7)
            } else if c == '8' {
                Some(Zone::E8)
            } else if c == '9' {
                Some(Zone::E9)
            } else {
                None
            }
        } else {
            None
        };
        match found {
            Some(z) => {
                proof {
                    assert(z.token() =~= u);
                    Zone::lemma_token_injective(z, choose|y: Zone| #[trigger] y.token() == u);
                }
                Ok(z)
            },
            None => {
                proof {
                    assert forall|z: Zone| #[trigger] z.token() != u by {
                        if z.token() == u {
                            assert(z.token().len() == u.len());
                            assert(z.token()[0] == u[0]);
                            if u.len() == 2 {
                                assert(z.token()[1] == u[1]);
                            }
                        }
                    }
                    reveal_strlit("unknown zone: ");
                    assert("unknown zone: "@ + s@ =~= Zone::unknown(s@));
                }
                Err(String::from_str("unknown zone: ").concat(s))
            },
        }
    }

    /// The rows of zone buttons, top to bottom, each left to right.
    pub fn rows() -> (rows: Vec<Vec<Zone>>)
        ensures
            rows@.len() == Zone::layout().len(),
            forall|i: int| 0 <= i < rows@.len() ==> (#[trigger] rows@[i])@ == Zone::layout()[i],
    {
        let mut top: Vec<Zone> = Vec::new();
        top.push(Zone::A);
        top.push(Zone::B);
        top.push(Zone::C);
        top.push(Zone::D);
        let mut middle: Vec<Zone> = Vec::new();
        middle.push(Zone::E1);
        middle.push(Zone::E2);
        middle.push(Zone::E3);
        middle.push(Zone::E4);
        middle.push(Zone::E5);
        let mut bottom: Vec<Zone> = Vec::new();
        bottom.push(Zone::E6);
        bottom.push(Zone::E7);
        bottom.push(Zone::E8);
        bottom.push(Zone::E9);
        proof {
            assert(top@ =~= Zone::layout()[0]);
            assert(middle@ =~= Zone::layout()[1]);
            assert(bottom@ =~= Zone::layout()[2]);
        }
        let mut rows: Vec<Vec<Zone>> = Vec::new();
        rows.push(top);
        rows.push(middle);
        rows.push(bottom);
        rows
    }

    /// Two zones with the same token are the same zone.
    pub proof fn lemma_token_injective(a: Zone, b: Zone)
        requires
            a.token() == b.token(),
        ensures
            a == b,
    {
        Zone::lemma_token_shape(a);
        Zone::lemma_token_shape(b);
    }

    /// The zones A to D have one letter; the zones E1 to E9 have the letter
    /// E and a digit.
    pub proof fn lemma_token_shape(z: Zone)
        ensures
            z.ordinal() < 4 ==> z.token().len() == 1 && z.token()[0] as int == 'A' as int
                + z.ordinal(),
            z.ordinal() >= 4 ==> z.token().len() == 2 && z.token()[0] == 'E' && z.token()[1] as int
                == '1' as int + z.ordinal() - 4,
    {
    }

    /// A token is already in upper case.
    pub proof fn lemma_token_is_upper(z: Zone)
        ensures
            upper_all(z.token()) == z.token(),
    {
        assert(upper_all(z.token()) =~= z.token());
    }

    /// Writing a zone and reading it back gives the zone.
    pub proof fn lemma_parse_token(z: Zone)
        ensures
            Zone::parse(z.token()) == Some(z),
    {
        Zone::lemma_token_is_upper(z);
        let u = upper_all(z.token());
        Zone::lemma_token_injective(z, choose|y: Zone| #[trigger] y.token() == u);
    }

    /// Reading ignores ASCII case: two texts with the same upper-case form
    /// name the same zone, or both name none.
    pub proof fn lemma_parse_ignores_case(s: Seq<char>, t: Seq<char>)
        requires
            upper_all(s) == upper_all(t),
        ensures
            Zone::parse(s) == Zone::parse(t),
    {
    }

    /// A text names a zone exactly if its upper-case form is that zone's
    /// token.
    pub proof fn lemma_parse_is_token(s: Seq<char>, z: Zone)
        ensures
            Zone::parse(s) == Some(z) <==> z.token() == upper_all(s),
    {
        if z.token() == upper_all(s) {
            Zone::lemma_token_injective(z, choose|y: Zone| #[trigger] y.token() == upper_all(s));
        }
    }

    /// `all()` lists every zone once, at its ordinal, and the layout rows
    /// are `all()` cut after the fourth and the ninth zone.
    pub proof fn lemma_all_is_complete(z: Zone)
        ensures
            Zone::all().len() == 13,
            z.ordinal() < 13,
            Zone::all()[z.ordinal() as int] == z,
            Zone::ALL@ == Zone::all(),
            Zone::layout()[0] + Zone::layout()[1] + Zone::layout()[2] == Zone::all(),
    {
        assert(Zone::ALL@ =~= Zone::all());
        assert(Zone::layout()[0] + Zone::layout()[1] + Zone::layout()[2] =~= Zone::all());
    }
}

} // verus!
