//! The kernel command line: a bounded line of printable ASCII text that grows
//! at its end, one fragment at a time, with single spaces between fragments.

use vstd::prelude::*;
use vstd::string::*;

verus! {

broadcast use vstd::string::is_ascii_spec_bytes;

/// Why an operation on a command line was refused.
#[derive(Clone, Copy, Debug, PartialEq, Eq, Structural)]
pub enum CmdlineError {
    /// The command line could not be copied into guest memory.
    CommandLineCopy,
    /// The text does not fit: in the command line's capacity, or in guest memory.
    CommandLineOverflow,
    /// The text holds a character that is not printable ASCII.
    InvalidAscii,
    /// A key or a value holds a space.
    HasSpace,
    /// A key or a value holds an equals sign.
    HasEquals,
}

impl CmdlineError {
    /// The text of `message`.
    pub open spec fn message_spec(self) -> Seq<char> {
        match self {
            CmdlineError::CommandLineCopy => "Failed to copy the command line string to guest memory"@,
            CmdlineError::CommandLineOverflow => "Command line string is too long"@,
            CmdlineError::InvalidAscii => "string contains non-printable ASCII character"@,
            CmdlineError::HasSpace => "string contains a space"@,
            CmdlineError::HasEquals => "string contains an equals sign"@,
        }
    }

    /// A sentence that describes the error.
    pub fn message(&self) -> (r: String)
        ensures
            r@ == self.message_spec(),
    {
        match self {
            CmdlineError::CommandLineCopy => String::from_str(
                "Failed to copy the command line string to guest memory",
            ),
            CmdlineError::CommandLineOverflow => String::from_str(
                "Command line string is too long",
            ),
            CmdlineError::InvalidAscii => String::from_str(
                "string contains non-printable ASCII character",
            ),
            CmdlineError::HasSpace => String::from_str("string contains a space"),
            CmdlineError::HasEquals => String::from_str("string contains an equals sign"),
        }
    }
}

/// Whether `c` is a printable ASCII character (space to tilde).
pub open spec fn printable(c: char) -> bool {
    ' ' <= c <= '~'
}

/// Whether every character of `s` is printable ASCII.
pub open spec fn all_printable(s: Seq<char>) -> bool {
    forall|i: int| 0 <= i < s.len() ==> printable(#[trigger] s[i])
}

/// What is wrong with `s` as a key or as a value, if anything.
pub open spec fn element_error(s: Seq<char>) -> Option<CmdlineError> {
    if !all_printable(s) {
        Some(CmdlineError::InvalidAscii)
    } else if s.contains(' ') {
        Some(CmdlineError::HasSpace)
    } else if s.contains('=') {
        Some(CmdlineError::HasEquals)
    } else {
        None
    }
}

/// `line` with `fragment` added at its end, after a space unless `line` is empty.
pub open spec fn joined(line: Seq<char>, fragment: Seq<char>) -> Seq<char> {
    if line.len() == 0 {
        fragment
    } else {
        line + seq![' '] + fragment
    }
}

/// The fragment that stands for `key` with the value `val`.
pub open spec fn key_value(key: Seq<char>, val: Seq<char>) -> Seq<char> {
    key + seq!['='] + val
}

/// Why `fragment` cannot be added to `line` under `capacity`, if it cannot.
pub open spec fn insert_str_error(line: Seq<char>, capacity: nat, fragment: Seq<char>) -> Option<
    CmdlineError,
> {
    if !all_printable(fragment) {
        Some(CmdlineError::InvalidAscii)
    } else if joined(line, fragment).len() > capacity {
        Some(CmdlineError::CommandLineOverflow)
    } else {
        None
    }
}

/// Why `key=val` cannot be added to `line` under `capacity`, if it cannot.
pub open spec fn insert_error(
    line: Seq<char>,
    capacity: nat,
    key: Seq<char>,
    val: Seq<char>,
) -> Option<CmdlineError> {
    if element_error(key) is Some {
        element_error(key)
    } else if element_error(val) is Some {
        element_error(val)
    } else if joined(line, key_value(key, val)).len() > capacity {
        Some(CmdlineError::CommandLineOverflow)
    } else {
        None
    }
}

/// Whether `s` ends with `tail`.
pub open spec fn ends_with(s: Seq<char>, tail: Seq<char>) -> bool {
    s.len() >= tail.len() && s.subrange(s.len() - tail.len(), s.len() as int) == tail
}

/// Whether `s` begins with `head`.
pub open spec fn starts_with(s: Seq<char>, head: Seq<char>) -> bool {
    s.len() >= head.len() && s.subrange(0, head.len() as int) == head
}

/// A line that takes a fragment ends with the fragment thereafter, still
/// begins with what it held before, and is within its capacity.
pub proof fn lemma_insert_str_appends(line: Seq<char>, capacity: nat, fragment: Seq<char>)
    ensures
        insert_str_error(line, capacity, fragment) is None ==> {
            &&& ends_with(joined(line, fragment), fragment)
            &&& starts_with(joined(line, fragment), line)
            &&& joined(line, fragment).len() <= capacity
        },
{
    let after = joined(line, fragment);
    assert(after.subrange(after.len() - fragment.len(), after.len() as int) =~= fragment);
    assert(after.subrange(0, line.len() as int) =~= line);
}

/// The bytes of `line` followed by one NUL byte.
pub open spec fn nul_terminated(line: Seq<char>) -> Seq<u8> {
    Seq::new(line.len(), |i: int| line[i] as u8).push(0u8)
}

/// The number of characters of `s` if all of them are printable ASCII.
fn printable_len(s: &str) -> (r: Option<usize>)
    ensures
        r is Some <==> all_printable(s@),
        r matches Some(n) ==> n == s@.len() && s.is_ascii(),
{
    if !s.is_ascii() {
        proof {
            if all_printable(s@) {
                assert forall|i: int| 0 <= i < s@.len() implies '\0' <= #[trigger] s@[i]
                    <= '\u{7f}' by {
                    assert(printable(s@[i]));
                }
            }
        }
        return None;
    }
    let n = s.as_bytes().len();
    let mut i: usize = 0;
    while i < n
        invariant
            s.is_ascii(),
            n == s@.len(),
            i <= n,
            forall|j: int| 0 <= j < i ==> printable(#[trigger] s@[j]),
        decreases n - i,
    {
        let b = s.get_ascii(i);
        if b < 0x20 || b > 0x7e {
            assert(!printable(s@[i as int]));
            return None;
        }
        assert(printable(s@[i as int]));
        i = i + 1;
    }
    Some(n)
}

/// Whether the ASCII text `s` holds the character with the code `wanted`.
fn has_ascii(s: &str, wanted: u8) -> (r: bool)
    requires
        s.is_ascii(),
        wanted < 128,
    ensures
        r == s@.contains(wanted as char),
{
    let n = s.as_bytes().len();
    let mut i: usize = 0;
    while i < n
        invariant
            s.is_ascii(),
            wanted < 128,
            n == s@.len(),
            i <= n,
            forall|j: int| 0 <= j < i ==> s@[j] != wanted as char,
        decreases n - i,
    {
        let b = s.get_ascii(i);
        if b == wanted {
            assert(s@[i as int] == wanted as char);
            return true;
        }
        i = i + 1;
    }
    false
}

/// The length of `s` if it can stand as a key or a value.
fn element_len(s: &str) -> (r: Result<usize, CmdlineError>)
    ensures
        match r {
            Ok(n) => element_error(s@) is None && n == s@.len(),
            Err(e) => element_error(s@) == Some(e),
        },
{
    match printable_len(s) {
        None => Err(CmdlineError::InvalidAscii),
        Some(n) => {
            if has_ascii(s, 0x20) {
                Err(CmdlineError::HasSpace)
            } else if has_ascii(s, 0x3d) {
                Err(CmdlineError::HasEquals)
            } else {
                Ok(n)
            }
        },
    }
}

/// A kernel command line under construction.
#[derive(Debug)]
pub struct Cmdline {
    line: String,
    capacity: usize,
}

impl View for Cmdline {
    type V = Seq<char>;

    /// The text of the command line.
    closed spec fn view(&self) -> Seq<char> {
        self.line@
    }
}

impl Clone for Cmdline {
    fn clone(&self) -> (r: Self)
        ensures
            r == *self,
    {
        Cmdline { line: self.line.clone(), capacity: self.capacity }
    }
}

impl Cmdline {
    /// The most characters that the line may hold.
    pub closed spec fn spec_capacity(&self) -> nat {
        self.capacity as nat
    }

    /// The line holds printable ASCII only and is within its capacity.
    pub open spec fn wf(&self) -> bool {
        &&& self@.len() <= self.spec_capacity()
        &&& all_printable(self@)
    }

    /// An empty command line that may grow to `capacity` characters.
    pub fn new(capacity: usize) -> (r: Self)
        ensures
            r.wf(),
            r@ == Seq::<char>::empty(),
            r.spec_capacity() == capacity,
    {
        Cmdline { line: String::new(), capacity }
    }

    /// The most characters that the line may hold.
    pub fn capacity(&self) -> (r: usize)
        ensures
            r == self.spec_capacity(),
    {
        self.capacity
    }

    /// The number of characters in the line.
    pub fn len(&self) -> (r: usize)
        requires
            self.wf(),
        ensures
            r == self@.len(),
    {
        proof {
            self.lemma_ascii();
        }
        let text = self.line.as_str();
        assert(is_ascii(text));
        text.as_bytes().len()
    }

    /// Whether the line is empty.
    pub fn is_empty(&self) -> (r: bool)
        ensures
            r == (self@.len() == 0),
    {
        self.line.as_str().is_empty()
    }

    /// The text of the command line.
    pub fn as_str(&self) -> (r: &str)
        ensures
            r@ == self@,
    {
        self.line.as_str()
    }

    proof fn lemma_ascii(&self)
        requires
            self.wf(),
        ensures
            vstd::utf8::is_ascii_chars(self.line@),
    {
        let s = self.line@;
        assert forall|i: int| 0 <= i < s.len() implies '\0' <= #[trigger] s[i] <= '\u{7f}' by {
            assert(printable(s[i]));
        }
    }

    /// Adds `fragment` at the end of the line, after a space if the line is not
    /// empty. A fragment that holds anything but printable ASCII, or that would
    /// make the line longer than its capacity, is refused and leaves the line as
    /// it was.
    pub fn insert_str(&mut self, fragment: &str) -> (r: Result<(), CmdlineError>)
        requires
            old(self).wf(),
        ensures
            final(self).wf(),
            final(self).spec_capacity() == old(self).spec_capacity(),
            match r {
                Ok(()) => insert_str_error(old(self)@, old(self).spec_capacity(), fragment@)
                    is None && final(self)@ == joined(old(self)@, fragment@),
                Err(e) => insert_str_error(old(self)@, old(self).spec_capacity(), fragment@)
                    == Some(e) && *final(self) == *old(self),
            },
    {
        let n = match printable_len(fragment) {
            None => {
                return Err(CmdlineError::InvalidAscii);
            },
            Some(n) => n,
        };
        let used = self.len();
        let room = self.capacity - used;
        let gap: usize = if used == 0 {
            0
        } else {
            1
        };
        if gap > room || n > room - gap {
            return Err(CmdlineError::CommandLineOverflow);
        }
        if used != 0 {
            self.line.push(' ');
        }
        self.line.append(fragment);
        assert(self.line@ =~= joined(old(self)@, fragment@));
        Ok(())
    }

    /// Adds `key=val` at the end of the line, after a space if the line is not
    /// empty. A key or a value that holds anything but printable ASCII, a space
    /// or an equals sign is refused, and so is a pair that would make the line
    /// longer than its capacity; the line then stays as it was.
    pub fn insert(&mut self, key: &str, val: &str) -> (r: Result<(), CmdlineError>)
        requires
            old(self).wf(),
        ensures
            final(self).wf(),
            final(self).spec_capacity() == old(self).spec_capacity(),
            match r {
                Ok(()) => insert_error(old(self)@, old(self).spec_capacity(), key@, val@)
                    is None && final(self)@ == joined(old(self)@, key_value(key@, val@)),
                Err(e) => insert_error(old(self)@, old(self).spec_capacity(), key@, val@)
                    == Some(e) && *final(self) == *old(self),
            },
    {
        let k = match element_len(key) {
            Err(e) => {
                return Err(e);
            },
            Ok(k) => k,
        };
        let v = match element_len(val) {
            Err(e) => {
                return Err(e);
            },
            Ok(v) => v,
        };
        let used = self.len();
        let room = self.capacity - used;
        let gap: usize = if used == 0 {
            1
        } else {
            2
        };
        if gap > room || k > room - gap || v > room - gap - k {
            return Err(CmdlineError::CommandLineOverflow);
        }
        if used != 0 {
            self.line.push(' ');
        }
        self.line.append(key);
        self.line.push('=');
        self.line.append(val);
        assert(self.line@ =~= joined(old(self)@, key_value(key@, val@)));
        Ok(())
    }

    /// The bytes of the line, closed by one NUL byte: the form in which the
    /// line is written into guest memory.
    pub fn to_bytes_with_nul(&self) -> (r: Vec<u8>)
        requires
            self.wf(),
        ensures
            r@ == nul_terminated(self@),
    {
        proof {
            self.lemma_ascii();
        }
        let text = self.line.as_str();
        assert(is_ascii(text));
        let mut bytes = text.as_bytes_vec();
        bytes.push(0u8);
        assert(bytes@ =~= nul_terminated(self@));
        bytes
    }
}

} // verus!
