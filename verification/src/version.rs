//! Game versions: five dotted numbers, `YYYY.MM.DD.RRRR.BBBB`.

use vstd::prelude::*;
use std::cmp::Ordering;
use vstd::std_specs::cmp::{PartialEqSpecImpl, PartialOrdSpecImpl};
use crate::error::Error;
use crate::numbers::{append_decimal, decimal, decimal_chars, padded, parse_u64_up_to, parse_unsigned};
use crate::search::{split, split_chars};
use crate::text::{append_chars, append_str, chars_of, lemma_trim_idempotent, string_of, trim, trimmed};

verus! {

/// A parsed game version. `version_string` is the text it was read from,
/// trimmed; the five numbers are what that text denotes.
#[derive(Debug, Clone, Eq)]
pub struct GameVersion {
    pub version_string: String,
    pub year: u16,
    pub month: u8,
    pub day: u8,
    pub revision: u16,
    pub build: u16,
}

/// The five numbers of a version.
pub struct VersionNumbers {
    pub year: u16,
    pub month: u8,
    pub day: u8,
    pub revision: u16,
    pub build: u16,
}

/// The text of a version built from its numbers: each zero-filled to
/// 4, 2, 2, 4 and 4 digits, joined by dots.
pub open spec fn canonical_text(n: VersionNumbers) -> Seq<char> {
    padded(decimal(n.year as nat), 4, '0') + "."@ + padded(decimal(n.month as nat), 2, '0') + "."@
        + padded(decimal(n.day as nat), 2, '0') + "."@ + padded(decimal(n.revision as nat), 4, '0')
        + "."@ + padded(decimal(n.build as nat), 4, '0')
}

/// The dot-separated fields of a version text.
pub open spec fn version_fields(s: Seq<char>) -> Seq<Seq<char>> {
    split(trim(s), '.')
}

/// What a version text denotes, or the reason it denotes nothing.
pub open spec fn parse_outcome(s: Seq<char>) -> Result<VersionNumbers, Seq<char>> {
    let p = version_fields(s);
    if p.len() != 5 {
        Err("Expected 5 parts separated by '.', got "@ + decimal(p.len()) + ": "@ + s)
    } else if parse_unsigned(p[0], 0xffff) is None {
        Err("Invalid year: "@ + p[0])
    } else if parse_unsigned(p[1], 0xff) is None {
        Err("Invalid month: "@ + p[1])
    } else if parse_unsigned(p[2], 0xff) is None {
        Err("Invalid day: "@ + p[2])
    } else if parse_unsigned(p[3], 0xffff) is None {
        Err("Invalid revision: "@ + p[3])
    } else if parse_unsigned(p[4], 0xffff) is None {
        Err("Invalid build: "@ + p[4])
    } else {
        Ok(
            VersionNumbers {
                year: parse_unsigned(p[0], 0xffff).unwrap() as u16,
                month: parse_unsigned(p[1], 0xff).unwrap() as u8,
                day: parse_unsigned(p[2], 0xff).unwrap() as u8,
                revision: parse_unsigned(p[3], 0xffff).unwrap() as u16,
                build: parse_unsigned(p[4], 0xffff).unwrap() as u16,
            },
        )
    }
}

fn field_error(label: &str, field: &[char]) -> (e: Error)
    ensures
        e matches Error::InvalidVersionFormat(m) && m@ == label@ + field@,
{
    let mut msg = chars_of(label);
    append_chars(&mut msg, field);
    Error::InvalidVersionFormat(string_of(msg.as_slice()))
}

impl GameVersion {
    /// The five numbers of this version.
    pub open spec fn numbers(self) -> VersionNumbers {
        VersionNumbers {
            year: self.year,
            month: self.month,
            day: self.day,
            revision: self.revision,
            build: self.build,
        }
    }

    /// The version with the given numbers and their canonical text.
    pub fn new(year: u16, month: u8, day: u8, revision: u16, build: u16) -> (v: Self)
        ensures
            v.numbers() == (VersionNumbers { year, month, day, revision, build }),
            v.version_string@ == canonical_text(v.numbers()),
    {
        let mut out: Vec<char> = Vec::new();
        append_decimal(&mut out, year as u64, 4);
        append_str(&mut out, ".");
        append_decimal(&mut out, month as u64, 2);
        append_str(&mut out, ".");
        append_decimal(&mut out, day as u64, 2);
        append_str(&mut out, ".");
        append_decimal(&mut out, revision as u64, 4);
        append_str(&mut out, ".");
        append_decimal(&mut out, build as u64, 4);
        assert(out@ =~= canonical_text(VersionNumbers { year, month, day, revision, build }));
        GameVersion {
            version_string: string_of(out.as_slice()),
            year,
            month,
            day,
            revision,
            build,
        }
    }

    /// Reads a version from its text. White space around it is ignored.
    pub fn parse(version_string: &str) -> (r: Result<Self, Error>)
        ensures
            match parse_outcome(version_string@) {
                Ok(n) => r matches Ok(v) && v.numbers() == n && v.version_string@ == trim(
                    version_string@,
                ),
                Err(msg) => r matches Err(Error::InvalidVersionFormat(m)) && m@ == msg,
            },
    {
        let raw = chars_of(version_string);
        let t = trimmed(raw.as_slice());
        let parts = split_chars(t.as_slice(), '.');
        if parts.len() != 5 {
            let mut msg = chars_of("Expected 5 parts separated by '.', got ");
            let count = decimal_chars(parts.len() as u64);
            append_chars(&mut msg, count.as_slice());
            append_str(&mut msg, ": ");
            append_chars(&mut msg, raw.as_slice());
            return Err(Error::InvalidVersionFormat(string_of(msg.as_slice())));
        }
        let year = match parse_u64_up_to(parts[0].as_slice(), 0xffff) {
            Some(n) => n as u16,
            None => {
                return Err(field_error("Invalid year: ", parts[0].as_slice()));
            },
        };
        let month = match parse_u64_up_to(parts[1].as_slice(), 0xff) {
            Some(n) => n as u8,
            None => {
                return Err(field_error("Invalid month: ", parts[1].as_slice()));
            },
        };
        let day = match parse_u64_up_to(parts[2].as_slice(), 0xff) {
            Some(n) => n as u8,
            None => {
                return Err(field_error("Invalid day: ", parts[2].as_slice()));
            },
        };
        let revision = match parse_u64_up_to(parts[3].as_slice(), 0xffff) {
            Some(n) => n as u16,
            None => {
                return Err(field_error("Invalid revision: ", parts[3].as_slice()));
            },
        };
        let build = match parse_u64_up_to(parts[4].as_slice(), 0xffff) {
            Some(n) => n as u16,
            None => {
                return Err(field_error("Invalid build: ", parts[4].as_slice()));
            },
        };
        Ok(GameVersion { version_string: string_of(t.as_slice()), year, month, day, revision, build })
    }

    /// The text of this version, as it is sent to the patch servers.
    pub fn as_str(&self) -> (s: &str)
        ensures
            s@ == self.version_string@,
    {
        self.version_string.as_str()
    }

    /// The text of this version.
    pub fn to_string(&self) -> (s: String)
        ensures
            s@ == self.version_string@,
    {
        self.version_string.clone()
    }
}

/// Reading a version, writing it out and reading that again gives what the
/// first reading gave: the same numbers, and the same text.
pub proof fn lemma_parse_format_parse(s: Seq<char>)
    requires
        parse_outcome(s) is Ok,
    ensures
        parse_outcome(trim(s)) == parse_outcome(s),
        trim(trim(s)) == trim(s),
{
    lemma_trim_idempotent(s);
}

/// Five texts without a dot, joined by dots, split into the five.
proof fn lemma_five_fields(f0: Seq<char>, f1: Seq<char>, f2: Seq<char>, f3: Seq<char>, f4: Seq<char>)
    requires
        forall|i: int| 0 <= i < f0.len() ==> #[trigger] f0[i] != '.',
        forall|i: int| 0 <= i < f1.len() ==> #[trigger] f1[i] != '.',
        forall|i: int| 0 <= i < f2.len() ==> #[trigger] f2[i] != '.',
        forall|i: int| 0 <= i < f3.len() ==> #[trigger] f3[i] != '.',
        forall|i: int| 0 <= i < f4.len() ==> #[trigger] f4[i] != '.',
    ensures
        split(f0 + "."@ + f1 + "."@ + f2 + "."@ + f3 + "."@ + f4, '.') == seq![f0, f1, f2, f3, f4],
{
    reveal_strlit(".");
    let dot = seq!['.'];
    assert("."@ =~= dot);
    let r3 = f3 + dot + f4;
    let r2 = f2 + dot + r3;
    let r1 = f1 + dot + r2;
    let t = f0 + "."@ + f1 + "."@ + f2 + "."@ + f3 + "."@ + f4;
    assert(t =~= f0 + dot + r1);
    crate::search::lemma_split_whole(f4, '.');
    crate::search::lemma_split_first(f3, f4, '.');
    crate::search::lemma_split_first(f2, r3, '.');
    crate::search::lemma_split_first(f1, r2, '.');
    crate::search::lemma_split_first(f0, r1, '.');
    assert(split(r3, '.') =~= seq![f3, f4]);
    assert(split(r2, '.') =~= seq![f2, f3, f4]);
    assert(split(r1, '.') =~= seq![f1, f2, f3, f4]);
    assert(split(f0 + dot + r1, '.') =~= seq![f0, f1, f2, f3, f4]);
}

/// The fields of the text of a version made from its numbers.
proof fn lemma_canonical_fields(n: VersionNumbers)
    ensures
        version_fields(canonical_text(n)) == seq![
            padded(decimal(n.year as nat), 4, '0'),
            padded(decimal(n.month as nat), 2, '0'),
            padded(decimal(n.day as nat), 2, '0'),
            padded(decimal(n.revision as nat), 4, '0'),
            padded(decimal(n.build as nat), 4, '0'),
        ],
{
    let f0 = padded(decimal(n.year as nat), 4, '0');
    let f1 = padded(decimal(n.month as nat), 2, '0');
    let f2 = padded(decimal(n.day as nat), 2, '0');
    let f3 = padded(decimal(n.revision as nat), 4, '0');
    let f4 = padded(decimal(n.build as nat), 4, '0');
    lemma_field(n.year as nat, 4, 0xffff);
    lemma_field(n.month as nat, 2, 0xff);
    lemma_field(n.day as nat, 2, 0xff);
    lemma_field(n.revision as nat, 4, 0xffff);
    lemma_field(n.build as nat, 4, 0xffff);
    let t = canonical_text(n);
    assert(t[0] == f0[0]);
    assert(t.last() == f4.last());
    crate::text::lemma_trim_nothing(t);
    lemma_five_fields(f0, f1, f2, f3, f4);
}

/// The text of a version made from its numbers reads back as those
/// numbers.
pub proof fn lemma_new_then_parse(n: VersionNumbers)
    ensures
        parse_outcome(canonical_text(n)) == Ok::<VersionNumbers, Seq<char>>(n),
{
    lemma_canonical_fields(n);
    lemma_field(n.year as nat, 4, 0xffff);
    lemma_field(n.month as nat, 2, 0xff);
    lemma_field(n.day as nat, 2, 0xff);
    lemma_field(n.revision as nat, 4, 0xffff);
    lemma_field(n.build as nat, 4, 0xffff);
    let p = version_fields(canonical_text(n));
    assert(p.len() == 5);
    assert(p[0] == padded(decimal(n.year as nat), 4, '0'));
    assert(p[1] == padded(decimal(n.month as nat), 2, '0'));
    assert(p[2] == padded(decimal(n.day as nat), 2, '0'));
    assert(p[3] == padded(decimal(n.revision as nat), 4, '0'));
    assert(p[4] == padded(decimal(n.build as nat), 4, '0'));
}

/// A number written as a field of a version holds digits only, and reads
/// back as the number.
proof fn lemma_field(x: nat, width: nat, max: nat)
    requires
        x <= max,
    ensures
        ({
            let f = padded(decimal(x), width, '0');
            &&& f.len() >= 1
            &&& parse_unsigned(f, max) == Some(x)
            &&& forall|i: int|
                0 <= i < f.len() ==> #[trigger] f[i] != '.' && !crate::text::is_space(f[i])
        }),
{
    crate::numbers::lemma_decimal(x);
    crate::numbers::lemma_zero_padded(decimal(x), width);
    crate::numbers::lemma_parse_of_written(x, width, max);
    let f = padded(decimal(x), width, '0');
    assert forall|i: int| 0 <= i < f.len() implies #[trigger] f[i] != '.' && !crate::text::is_space(
        f[i],
    ) by {
        assert(crate::numbers::is_digit(f[i]));
    }
}

impl PartialEq for GameVersion {
    fn eq(&self, other: &Self) -> (r: bool) {
        self.version_string == other.version_string && self.year == other.year && self.month
            == other.month && self.day == other.day && self.revision == other.revision
            && self.build == other.build
    }
}

impl PartialEqSpecImpl for GameVersion {
    open spec fn obeys_eq_spec() -> bool {
        true
    }

    open spec fn eq_spec(&self, other: &Self) -> bool {
        self.version_string@ == other.version_string@ && self.year == other.year && self.month
            == other.month && self.day == other.day && self.revision == other.revision
            && self.build == other.build
    }
}

/// Order of two versions: by year, then month, day, revision and build.
pub open spec fn order_of(a: VersionNumbers, b: VersionNumbers) -> Ordering {
    if a.year != b.year {
        if a.year < b.year {
            Ordering::Less
        } else {
            Ordering::Greater
        }
    } else if a.month != b.month {
        if a.month < b.month {
            Ordering::Less
        } else {
            Ordering::Greater
        }
    } else if a.day != b.day {
        if a.day < b.day {
            Ordering::Less
        } else {
            Ordering::Greater
        }
    } else if a.revision != b.revision {
        if a.revision < b.revision {
            Ordering::Less
        } else {
            Ordering::Greater
        }
    } else if a.build != b.build {
        if a.build < b.build {
            Ordering::Less
        } else {
            Ordering::Greater
        }
    } else {
        Ordering::Equal
    }
}

/// The order of versions is total: two versions are in order one way or
/// the other, both ways only where their numbers are the same, and the
/// order carries over from one pair to the next.
pub proof fn lemma_order_is_total(a: VersionNumbers, b: VersionNumbers, c: VersionNumbers)
    ensures
        order_of(a, b) is Equal <==> a == b,
        order_of(a, b) is Less <==> order_of(b, a) is Greater,
        order_of(a, b) is Less && order_of(b, c) is Less ==> order_of(a, c) is Less,
{
}

impl PartialOrd for GameVersion {
    fn partial_cmp(&self, other: &Self) -> (r: Option<Ordering>) {
        if self.year != other.year {
            if self.year < other.year {
                Some(Ordering::Less)
            } else {
                Some(Ordering::Greater)
            }
        } else if self.month != other.month {
            if self.month < other.month {
                Some(Ordering::Less)
            } else {
                Some(Ordering::Greater)
            }
        } else if self.day != other.day {
            if self.day < other.day {
                Some(Ordering::Less)
            } else {
                Some(Ordering::Greater)
            }
        } else if self.revision != other.revision {
            if self.revision < other.revision {
                Some(Ordering::Less)
            } else {
                Some(Ordering::Greater)
            }
        } else if self.build != other.build {
            if self.build < other.build {
                Some(Ordering::Less)
            } else {
                Some(Ordering::Greater)
            }
        } else {
            Some(Ordering::Equal)
        }
    }
}

impl PartialOrdSpecImpl for GameVersion {
    open spec fn obeys_partial_cmp_spec() -> bool {
        true
    }

    open spec fn partial_cmp_spec(&self, other: &Self) -> Option<Ordering> {
        Some(order_of(self.numbers(), other.numbers()))
    }
}

} // verus!

verus! {

impl std::str::FromStr for GameVersion {
    type Err = Error;

    fn from_str(s: &str) -> (r: Result<Self, Error>)
        ensures
            match parse_outcome(s@) {
                Ok(n) => r matches Ok(v) && v.numbers() == n && v.version_string@ == trim(s@),
                Err(msg) => r matches Err(Error::InvalidVersionFormat(m)) && m@ == msg,
            },
    {
        GameVersion::parse(s)
    }
}

} // verus!
