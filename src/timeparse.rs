//! Reading a time of day written `HH[:MM[:SS]]`.
use vstd::prelude::*;

verus! {

/// Splits `s` at every colon: `n` colons give `n + 1` parts, empty ones
/// included.
pub open spec fn split_colons(s: Seq<char>) -> Seq<Seq<char>>
    decreases s.len(),
{
    if s.len() == 0 {
        seq![Seq::empty()]
    } else {
        let prev = split_colons(s.drop_last());
        if s.last() == ':' {
            prev.push(Seq::empty())
        } else {
            prev.update(prev.len() - 1, prev.last().push(s.last()))
        }
    }
}

pub proof fn lemma_split_colons_nonempty(s: Seq<char>)
    ensures
        split_colons(s).len() >= 1,
    decreases s.len(),
{
    if s.len() > 0 {
        lemma_split_colons_nonempty(s.drop_last());
    }
}

pub open spec fn is_ascii_digit(c: char) -> bool {
    '0' <= c && c <= '9'
}

/// Value of a string of ASCII digits read in base ten.
pub open spec fn digits_value(s: Seq<char>) -> nat
    decreases s.len(),
{
    if s.len() == 0 {
        0
    } else {
        digits_value(s.drop_last()) * 10 + ((s.last() as int) - ('0' as int)) as nat
    }
}

/// The digits of an unsigned number: what follows an optional leading `+`.
pub open spec fn unsigned_digits(s: Seq<char>) -> Seq<char> {
    if s.len() > 0 && s[0] == '+' {
        s.drop_first()
    } else {
        s
    }
}

/// What `u32::from_str` reads from `s`: an optional `+`, then one or more
/// ASCII digits whose value fits in a `u32`; anything else is no number.
pub open spec fn u32_from_text(s: Seq<char>) -> Option<u32> {
    let d = unsigned_digits(s);
    if d.len() > 0 && (forall|i: int| 0 <= i < d.len() ==> is_ascii_digit(#[trigger] d[i]))
        && digits_value(d) <= u32::MAX {
        Some(digits_value(d) as u32)
    } else {
        None
    }
}

/// Relies on `u32::from_str`: it accepts exactly an optional `+` followed by
/// ASCII digits whose value fits in a `u32`.
#[verifier::external_body]
fn parse_u32(s: &str) -> (r: Option<u32>)
    ensures
        r == u32_from_text(s@),
{
    <u32 as std::str::FromStr>::from_str(s).ok()
}

/// The parts of `s` between colons.
fn split_at_colons(s: &str) -> (parts: Vec<&str>)
    ensures
        parts@.map_values(|p: &str| p@) == split_colons(s@),
{
    let n = s.unicode_len();
    let mut parts: Vec<&str> = Vec::new();
    let mut start: usize = 0;
    let mut i: usize = 0;
    assert(s@.subrange(0, 0) =~= Seq::<char>::empty());
    assert(parts@.map_values(|p: &str| p@).push(s@.subrange(0, 0)) =~= split_colons(
        s@.subrange(0, 0),
    ));
    while i < n
        invariant
            n == s@.len(),
            start <= i <= n,
            parts@.map_values(|p: &str| p@).push(s@.subrange(start as int, i as int))
                == split_colons(s@.subrange(0, i as int)),
        decreases n - i,
    {
        let c = s.get_char(i);
        let ghost prefix = s@.subrange(0, i as int + 1);
        assert(prefix.drop_last() =~= s@.subrange(0, i as int));
        assert(prefix.last() == c);
        if c == ':' {
            let ghost before = parts@.map_values(|p: &str| p@);
            let part = s.substring_char(start, i);
            parts.push(part);
            assert(parts@.map_values(|p: &str| p@) =~= before.push(part@));
            start = i + 1;
            assert(s@.subrange(start as int, i as int + 1) =~= Seq::<char>::empty());
        } else {
            assert(s@.subrange(start as int, i as int + 1) =~= s@.subrange(
                start as int,
                i as int,
            ).push(c));
        }
        i = i + 1;
        assert(parts@.map_values(|p: &str| p@).push(s@.subrange(start as int, i as int))
            =~= split_colons(s@.subrange(0, i as int)));
    }
    assert(s@.subrange(0, n as int) =~= s@);
    let ghost before = parts@.map_values(|p: &str| p@);
    let part = s.substring_char(start, n);
    parts.push(part);
    assert(parts@.map_values(|p: &str| p@) =~= before.push(part@));
    assert(parts@.map_values(|p: &str| p@) =~= split_colons(s@));
    parts
}

/// Hours, minutes and seconds read from `HH`, `HH:MM` or `HH:MM:SS`; missing
/// parts are zero. The first part that is no number decides the message; more
/// than three parts are a format error. No range is checked here.
pub open spec fn parse_time_spec(s: Seq<char>) -> Result<(u32, u32, u32), Seq<char>> {
    let parts = split_colons(s);
    if parts.len() > 3 {
        Err("Invalid time format, use HH[:MM[:SS]]"@)
    } else if u32_from_text(parts[0]) is None {
        Err("Invalid hour"@)
    } else if parts.len() >= 2 && u32_from_text(parts[1]) is None {
        Err("Invalid minute"@)
    } else if parts.len() == 3 && u32_from_text(parts[2]) is None {
        Err("Invalid second"@)
    } else {
        Ok(
            (
                u32_from_text(parts[0])->Some_0,
                if parts.len() >= 2 { u32_from_text(parts[1])->Some_0 } else { 0 },
                if parts.len() == 3 { u32_from_text(parts[2])->Some_0 } else { 0 },
            ),
        )
    }
}

/// Reads a time of day written `HH`, `HH:MM` or `HH:MM:SS` into hours,
/// minutes and seconds, or an error message.
pub fn parse_time(time: &str) -> (r: Result<(u32, u32, u32), String>)
    ensures
        match r {
            Ok(hms) => parse_time_spec(time@) == Ok::<(u32, u32, u32), Seq<char>>(hms),
            Err(msg) => parse_time_spec(time@) == Err::<(u32, u32, u32), Seq<char>>(msg@),
        },
{
    let parts = split_at_colons(time);
    proof {
        lemma_split_colons_nonempty(time@);
    }
    let ghost views = parts@.map_values(|p: &str| p@);
    assert(forall|i: int| 0 <= i < parts@.len() ==> #[trigger] views[i] == parts@[i]@);
    if parts.len() > 3 {
        return Err(String::from_str("Invalid time format, use HH[:MM[:SS]]"));
    }
    let hours = match parse_u32(parts[0]) {
        Some(h) => h,
        None => {
            return Err(String::from_str("Invalid hour"));
        },
    };
    let mut minutes: u32 = 0;
    if parts.len() >= 2 {
        minutes = match parse_u32(parts[1]) {
            Some(m) => m,
            None => {
                return Err(String::from_str("Invalid minute"));
            },
        };
    }
    let mut seconds: u32 = 0;
    if parts.len() == 3 {
        seconds = match parse_u32(parts[2]) {
            Some(sec) => sec,
            None => {
                return Err(String::from_str("Invalid second"));
            },
        };
    }
    Ok((hours, minutes, seconds))
}

} // verus!
