use vstd::prelude::*;

verus! {

/// Default percentage for the primary (ticketmaster) share when its component
/// of a royalty spec is missing or unparseable.
pub const DEFAULT_TICKETMASTER_SHARE: u64 = 10;

/// Default percentage for the team share.
pub const DEFAULT_TEAM_SHARE: u64 = 5;

/// Default percentage for the secondary-platform (solpass) share.
pub const DEFAULT_SOLPASS_SHARE: u64 = 5;

/// An ASCII decimal digit.
pub open spec fn is_digit(c: char) -> bool {
    ('0' as u32) <= (c as u32) && (c as u32) <= ('9' as u32)
}

/// Numeric value of an ASCII decimal digit.
pub open spec fn digit_val(c: char) -> int {
    (c as u32) - ('0' as u32)
}

/// Every character of `s` is an ASCII decimal digit.
pub open spec fn all_digits(s: Seq<char>) -> bool {
    forall|i: int| 0 <= i < s.len() ==> is_digit(s[i])
}

/// Value of a digit string read as a base-10 numeral (0 when empty).
pub open spec fn digits_val(s: Seq<char>) -> int
    decreases s.len(),
{
    if s.len() == 0 {
        0
    } else {
        digits_val(s.drop_last()) * 10 + digit_val(s.last())
    }
}

/// Parse of one spec component as an unsigned 64-bit integer, with the
/// grammar of Rust's standard `u64` parse: an optional single leading `+`,
/// then at least one decimal digit, and a value that fits in 64 bits.
/// Anything else — empty, stray characters, a `-` sign, overflow — is a
/// parse failure, which the callers turn into a default share.
pub open spec fn parse_component(s: Seq<char>) -> Option<u64> {
    let body = if s.len() > 0 && s[0] == '+' {
        s.drop_first()
    } else {
        s
    };
    if body.len() > 0 && all_digits(body) && digits_val(body) <= u64::MAX {
        Some(digits_val(body) as u64)
    } else {
        None
    }
}

/// The components of `s` split on commas, separators removed, empty
/// components kept: the empty string has one (empty) component, and each
/// comma ends a component and starts the next.
pub open spec fn split_commas(s: Seq<char>) -> Seq<Seq<char>>
    decreases s.len(),
{
    if s.len() == 0 {
        seq![Seq::<char>::empty()]
    } else {
        let rest = split_commas(s.drop_last());
        if s.last() == ',' {
            rest.push(Seq::<char>::empty())
        } else {
            rest.update(rest.len() - 1, rest.last().push(s.last()))
        }
    }
}

/// A split always yields at least one component.
pub proof fn lemma_split_commas_len(s: Seq<char>)
    ensures
        split_commas(s).len() >= 1,
    decreases s.len(),
{
    if s.len() > 0 {
        lemma_split_commas_len(s.drop_last());
    }
}

/// The component's parsed value, or the default where the parse fails.
pub open spec fn share_or(c: Option<u64>, dflt: u64) -> u64 {
    match c {
        Some(v) => v,
        None => dflt,
    }
}

/// The percentage triple (ticketmaster, team, solpass) a royalty spec
/// denotes. A spec with at least three components contributes each component
/// that parses, with per-component defaults for the ones that do not; a spec
/// with fewer than three components yields the full default triple. Malformed
/// input is never an error: parsing is best-effort by design.
pub open spec fn royalty_shares(s: Seq<char>) -> (u64, u64, u64) {
    let parts = split_commas(s);
    if parts.len() >= 3 {
        (
            share_or(parse_component(parts[0]), DEFAULT_TICKETMASTER_SHARE),
            share_or(parse_component(parts[1]), DEFAULT_TEAM_SHARE),
            share_or(parse_component(parts[2]), DEFAULT_SOLPASS_SHARE),
        )
    } else {
        (DEFAULT_TICKETMASTER_SHARE, DEFAULT_TEAM_SHARE, DEFAULT_SOLPASS_SHARE)
    }
}

/// Sum of the three shares, as an unbounded integer: the executable side must
/// check that it fits before using it.
pub open spec fn royalty_total(s: Seq<char>) -> int {
    royalty_shares(s).0 + royalty_shares(s).1 + royalty_shares(s).2
}

/// Parses one component of a royalty spec, exactly realising
/// `parse_component` on the component's characters.
pub fn parse_component_chars(s: &Vec<char>) -> (r: Option<u64>)
    ensures
        r == parse_component(s@),
{
    let n = s.len();
    let start: usize = if n > 0 && s[0] == '+' {
        1
    } else {
        0
    };
    proof {
        if n > 0 && s@[0] == '+' {
            assert(s@.drop_first() =~= s@.subrange(1, n as int));
        }
    }
    if n == start {
        return None;
    }
    let mut value: u64 = 0;
    let mut overflow: bool = false;
    let mut j: usize = start;
    while j < n
        invariant
            start <= j <= n,
            n == s@.len(),
            start == 0 || start == 1,
            start == 1 ==> n > 0 && s@[0] == '+',
            start == 0 ==> !(n > 0 && s@[0] == '+'),
            all_digits(s@.subrange(start as int, j as int)),
            !overflow ==> value == digits_val(s@.subrange(start as int, j as int)),
            overflow ==> digits_val(s@.subrange(start as int, j as int)) > u64::MAX,
        decreases n - j,
    {
        let c = s[j];
        let code: u32 = c as u32;
        if code < 48 || code > 57 {
            proof {
                let body = if start == 1 {
                    s@.drop_first()
                } else {
                    s@
                };
                assert(body =~= s@.subrange(start as int, n as int));
                assert(body[j - start] == s@[j as int]);
                assert(!is_digit(body[j - start]));
            }
            return None;
        }
        let d: u64 = (code - 48) as u64;
        proof {
            assert(s@.subrange(start as int, j + 1 as int).drop_last() =~= s@.subrange(
                start as int,
                j as int,
            ));
            lemma_digits_val_nonneg(s@.subrange(start as int, j as int));
        }
        if !overflow {
            match value.checked_mul(10) {
                Some(v10) => {
                    match v10.checked_add(d) {
                        Some(v) => {
                            value = v;
                        },
                        None => {
                            overflow = true;
                        },
                    }
                },
                None => {
                    overflow = true;
                },
            }
        }
        j = j + 1;
    }
    proof {
        assert(s@.subrange(start as int, n as int) =~= (if start == 1 {
            s@.drop_first()
        } else {
            s@
        }));
    }
    if overflow {
        None
    } else {
        Some(value)
    }
}

/// The value of a digit string is never negative.
pub proof fn lemma_digits_val_nonneg(s: Seq<char>)
    requires
        all_digits(s),
    ensures
        digits_val(s) >= 0,
    decreases s.len(),
{
    if s.len() > 0 {
        assert(all_digits(s.drop_last()));
        lemma_digits_val_nonneg(s.drop_last());
    }
}

/// Splits a royalty spec string on commas and resolves the three shares,
/// exactly realising `royalty_shares` on the string's characters.
pub fn parse_royalty_shares(s: &str) -> (r: (u64, u64, u64))
    ensures
        r == royalty_shares(s@),
{
    let n = s.unicode_len();
    let mut done: Vec<Vec<char>> = Vec::new();
    let mut current: Vec<char> = Vec::new();
    let mut i: usize = 0;
    proof {
        assert(done@.map_values(|v: Vec<char>| v@).push(current@) =~~= split_commas(
            s@.subrange(0, 0),
        ));
    }
    while i < n
        invariant
            i <= n,
            n == s@.len(),
            done@.map_values(|v: Vec<char>| v@).push(current@) =~~= split_commas(
                s@.subrange(0, i as int),
            ),
        decreases n - i,
    {
        let c = s.get_char(i);
        proof {
            assert(s@.subrange(0, i + 1 as int).drop_last() =~= s@.subrange(0, i as int));
            lemma_split_commas_len(s@.subrange(0, i as int));
        }
        if c == ',' {
            done.push(current);
            current = Vec::new();
            proof {
                assert(done@.map_values(|v: Vec<char>| v@).push(current@) =~~= split_commas(
                    s@.subrange(0, i + 1 as int),
                ));
            }
        } else {
            current.push(c);
            proof {
                assert(done@.map_values(|v: Vec<char>| v@).push(current@) =~~= split_commas(
                    s@.subrange(0, i + 1 as int),
                ));
            }
        }
        i = i + 1;
    }
    proof {
        assert(s@.subrange(0, n as int) =~= s@);
    }
    done.push(current);
    proof {
        assert(done@.map_values(|v: Vec<char>| v@) =~~= split_commas(s@));
    }
    if done.len() >= 3 {
        let a = match parse_component_chars(&done[0]) {
            Some(v) => v,
            None => DEFAULT_TICKETMASTER_SHARE,
        };
        let b = match parse_component_chars(&done[1]) {
            Some(v) => v,
            None => DEFAULT_TEAM_SHARE,
        };
        let c = match parse_component_chars(&done[2]) {
            Some(v) => v,
            None => DEFAULT_SOLPASS_SHARE,
        };
        (a, b, c)
    } else {
        (DEFAULT_TICKETMASTER_SHARE, DEFAULT_TEAM_SHARE, DEFAULT_SOLPASS_SHARE)
    }
}

} // verus!
