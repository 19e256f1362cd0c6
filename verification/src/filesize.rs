//! File-size converter: a size acronym picks a scale, and a formatter
//! shows one amount in bytes, kilobytes, megabytes and gigabytes.

use vstd::prelude::*;
use crate::strings::str_eq;

verus! {

broadcast use vstd::string::group_string_axioms;

/// A unit of file size carrying its scale in bytes.
#[derive(Clone, Copy, Debug)]
pub enum FileSize {
    BYTE(u64),
    KB(u64),
    MB(u64),
    GB(u64),
    WrongFormat,
}

/// The unit that a size acronym names, with its scale in bytes.
pub open spec fn size_of_acronym(s: Seq<char>) -> FileSize {
    if s == "bytes"@ {
        FileSize::BYTE(1)
    } else if s == "kb"@ {
        FileSize::KB(1000)
    } else if s == "mb"@ {
        FileSize::MB(1000000)
    } else if s == "gb"@ {
        FileSize::GB(1000000000)
    } else {
        FileSize::WrongFormat
    }
}

/// The scale a unit carries; zero for the malformed unit.
pub open spec fn degree_of(f: FileSize) -> int {
    match f {
        FileSize::BYTE(d) => d as int,
        FileSize::KB(d) => d as int,
        FileSize::MB(d) => d as int,
        FileSize::GB(d) => d as int,
        FileSize::WrongFormat => 0,
    }
}

impl FileSize {
    /// Reads a size acronym; anything but the four known ones is malformed.
    pub fn new(sizeacronym: &str) -> (r: FileSize)
        ensures
            r == size_of_acronym(sizeacronym@),
    {
        if str_eq(sizeacronym, "bytes") {
            FileSize::BYTE(1)
        } else if str_eq(sizeacronym, "kb") {
            FileSize::KB(1000)
        } else if str_eq(sizeacronym, "mb") {
            FileSize::MB(1_000_000)
        } else if str_eq(sizeacronym, "gb") {
            FileSize::GB(1_000_000_000)
        } else {
            FileSize::WrongFormat
        }
    }
}

/// One amount shown at every scale.
#[derive(Debug)]
pub struct Formatter {
    pub bytes: u64,
    pub kilobytes: u64,
    pub megabytes: u64,
    pub gigabytes: u64,
}

impl Formatter {
    /// Scales `num` by the unit's degree: up into bytes when `direction`
    /// holds, down out of bytes otherwise.
    pub fn converter(num: u64, need: FileSize, direction: bool) -> (r: u64)
        requires
            !(need is WrongFormat),
            direction ==> num * degree_of(need) <= u64::MAX,
            !direction ==> degree_of(need) > 0,
        ensures
            direction ==> r == num * degree_of(need),
            !direction ==> r == num as int / degree_of(need),
    {
        let degree: u64 = match need {
            FileSize::BYTE(d) => d,
            FileSize::KB(d) => d,
            FileSize::GB(d) => d,
            FileSize::MB(d) => d,
            FileSize::WrongFormat => unreached(),
        };
        if direction {
            num * degree
        } else {
            num / degree
        }
    }

    /// Reads `num` in the unit the acronym names and shows it at every
    /// scale, rounding down at each coarser one.
    pub fn new(num: u64, original: &str) -> (r: Formatter)
        requires
            !(size_of_acronym(original@) is WrongFormat),
            num * degree_of(size_of_acronym(original@)) <= u64::MAX,
        ensures
            r.bytes == num * degree_of(size_of_acronym(original@)),
            r.kilobytes == r.bytes as int / 1000,
            r.megabytes == r.bytes as int / 1000000,
            r.gigabytes == r.bytes as int / 1000000000,
    {
        proof {
            reveal_strlit("bytes");
            reveal_strlit("kb");
            reveal_strlit("mb");
            reveal_strlit("gb");
        }
        let original = FileSize::new(original);
        let original_bytes = Formatter::converter(num, original, true);
        let kb = FileSize::new("kb");
        let mb = FileSize::new("mb");
        let gb = FileSize::new("gb");
        proof {
            assert("bytes"@.len() == 5);
            assert("kb"@.len() == 2);
            assert("mb"@.len() == 2);
            assert("gb"@.len() == 2);
            assert("kb"@[0] == 'k' && "mb"@[0] == 'm' && "gb"@[0] == 'g');
            assert("kb"@ != "bytes"@);
            assert("mb"@ != "bytes"@);
            assert("mb"@ != "kb"@);
            assert("gb"@ != "bytes"@);
            assert("gb"@ != "kb"@);
            assert("gb"@ != "mb"@);
            assert(kb == FileSize::KB(1000));
            assert(mb == FileSize::MB(1000000));
            assert(gb == FileSize::GB(1000000000));
        }
        Formatter {
            bytes: original_bytes,
            kilobytes: Formatter::converter(original_bytes, kb, false),
            megabytes: Formatter::converter(original_bytes, mb, false),
            gigabytes: Formatter::converter(original_bytes, gb, false),
        }
    }
}

} // verus!
