//! The guest kernel command line: an append-only buffer of printable ASCII whose length,
//! with the terminating NUL, stays below a fixed capacity.

use vstd::prelude::*;
use crate::error::CmdlineError;

verus! {

/// The kernel command line used when the boot source gives none.
pub const DEFAULT_KERNEL_CMDLINE: &'static str = "reboot=k panic=1 pci=off nomodules 8250.nr_uarts=0 i8042.noaux i8042.nomux i8042.nopnp i8042.dumbkbd";

/// The bound on the command line buffer, terminating NUL included.
pub const CMDLINE_MAX_SIZE: usize = 0x10000;

/// Guest-physical address at which the command line is staged.
pub const CMDLINE_START: u64 = 0x20000;

/// A character the command line may hold: printable ASCII, space included.
pub open spec fn valid_char(c: char) -> bool {
    ' ' <= c && c <= '~'
}

/// Every character of `s` is printable ASCII.
pub open spec fn valid_text(s: Seq<char>) -> bool {
    forall|i: int| 0 <= i < s.len() ==> valid_char(#[trigger] s[i])
}

/// A key: printable ASCII without space or equals sign.
pub open spec fn valid_key(s: Seq<char>) -> bool {
    valid_text(s) && forall|i: int| 0 <= i < s.len() ==> #[trigger] s[i] != ' ' && s[i] != '='
}

/// `line` with `s` appended, separated by a space unless `line` is empty.
pub open spec fn joined(line: Seq<char>, s: Seq<char>) -> Seq<char> {
    if line.len() == 0 {
        s
    } else {
        line + seq![' '] + s
    }
}

/// `joined(line, s)` stays below the capacity.
pub open spec fn fits(line: Seq<char>, s: Seq<char>, capacity: nat) -> bool {
    joined(line, s).len() < capacity
}

/// A bounded, append-only kernel command line.
pub struct Cmdline {
    line: String,
    capacity: usize,
}

impl Cmdline {
    /// The text of the command line.
    pub closed spec fn text(&self) -> Seq<char> {
        self.line@
    }

    /// The bound on the text length, terminating NUL included.
    pub closed spec fn cap(&self) -> nat {
        self.capacity as nat
    }

    /// The text is printable ASCII and leaves room for the NUL.
    pub closed spec fn wf(&self) -> bool {
        &&& self.line@.len() < self.capacity
        &&& valid_text(self.line@)
    }

    /// A well-formed command line is printable ASCII and shorter than its capacity.
    pub proof fn lemma_wf(&self)
        requires
            self.wf(),
        ensures
            self.text().len() < self.cap(),
            valid_text(self.text()),
    {
    }

    /// An empty command line bounded by `capacity`.
    pub fn new(capacity: usize) -> (r: Cmdline)
        requires
            capacity > 0,
        ensures
            r.wf(),
            r.text() == Seq::<char>::empty(),
            r.cap() == capacity,
    {
        Cmdline { line: String::new(), capacity }
    }

    /// A second command line with the same text and capacity.
    pub fn duplicate(&self) -> (r: Cmdline)
        ensures
            r.text() == self.text(),
            r.cap() == self.cap(),
            r.wf() == self.wf(),
    {
        Cmdline { line: self.line.clone(), capacity: self.capacity }
    }

    /// The text of the command line.
    pub fn as_str(&self) -> (r: &str)
        ensures
            r@ == self.text(),
    {
        self.line.as_str()
    }

    /// The number of characters in the command line.
    pub fn len(&self) -> (r: usize)
        requires
            self.wf(),
        ensures
            r == self.text().len(),
    {
        self.line.as_str().unicode_len()
    }

    /// The capacity the command line was made with.
    pub fn capacity(&self) -> (r: usize)
        ensures
            r == self.cap(),
    {
        self.capacity
    }

    fn append_raw(&mut self, s: &str)
        requires
            old(self).wf(),
            valid_text(s@),
            fits(old(self).text(), s@, old(self).cap()),
        ensures
            final(self).wf(),
            final(self).text() == joined(old(self).text(), s@),
            final(self).cap() == old(self).cap(),
    {
        let empty = self.line.as_str().unicode_len() == 0;
        if !empty {
            proof {
                reveal_strlit(" ");
            }
            self.line.append(" ");
        }
        self.line.append(s);
        assert(self.line@ =~= joined(old(self).text(), s@));
    }

    /// Appends `slug`, separated from what is there by a space.
    pub fn insert_str(&mut self, slug: &str) -> (r: Result<(), CmdlineError>)
        requires
            old(self).wf(),
        ensures
            final(self).wf(),
            final(self).cap() == old(self).cap(),
            !valid_text(slug@) ==> r == Err::<(), CmdlineError>(CmdlineError::InvalidAscii),
            valid_text(slug@) && !fits(old(self).text(), slug@, old(self).cap())
                ==> r == Err::<(), CmdlineError>(CmdlineError::CommandLineOverflow),
            r is Ok <==> valid_text(slug@) && fits(old(self).text(), slug@, old(self).cap()),
            r is Ok ==> final(self).text() == joined(old(self).text(), slug@),
            r is Err ==> final(self).text() == old(self).text(),
    {
        if !check_text(slug) {
            return Err(CmdlineError::InvalidAscii);
        }
        if !self.has_capacity(slug) {
            return Err(CmdlineError::CommandLineOverflow);
        }
        self.append_raw(slug);
        Ok(())
    }

    /// Appends `key=val`, separated from what is there by a space.
    pub fn insert(&mut self, key: &str, val: &str) -> (r: Result<(), CmdlineError>)
        requires
            old(self).wf(),
        ensures
            final(self).wf(),
            final(self).cap() == old(self).cap(),
            r is Ok <==> valid_key(key@) && valid_text(val@)
                && fits(old(self).text(), key@ + seq!['='] + val@, old(self).cap()),
            r is Ok ==> final(self).text() == joined(old(self).text(), key@ + seq!['='] + val@),
            r is Err ==> final(self).text() == old(self).text(),
            valid_key(key@) && valid_text(val@)
                && !fits(old(self).text(), key@ + seq!['='] + val@, old(self).cap())
                ==> r == Err::<(), CmdlineError>(CmdlineError::CommandLineOverflow),
    {
        if !check_text(key) {
            return Err(CmdlineError::InvalidAscii);
        }
        let kr = check_key(key);
        if let Err(e) = kr {
            return Err(e);
        }
        if !check_text(val) {
            return Err(CmdlineError::InvalidAscii);
        }
        proof {
            reveal_strlit("=");
        }
        let pair = String::from_str(key).concat("=").concat(val);
        assert(pair@ =~= key@ + seq!['='] + val@);
        assert(valid_text(pair@)) by {
            assert forall|i: int| 0 <= i < pair@.len() implies valid_char(#[trigger] pair@[i]) by {
                if i < key@.len() {
                    assert(pair@[i] == key@[i]);
                } else if i > key@.len() {
                    assert(pair@[i] == val@[i - key@.len() - 1]);
                }
            }
        }
        if !self.has_capacity(pair.as_str()) {
            return Err(CmdlineError::CommandLineOverflow);
        }
        self.append_raw(pair.as_str());
        Ok(())
    }

    fn has_capacity(&self, s: &str) -> (r: bool)
        requires
            self.wf(),
        ensures
            r == fits(self.text(), s@, self.cap()),
    {
        let cur = self.line.as_str().unicode_len();
        let more = s.unicode_len();
        let needs_space: usize = if cur == 0 { 0 } else { 1 };
        more < self.capacity - cur - needs_space
    }
}

fn check_text(s: &str) -> (r: bool)
    ensures
        r == valid_text(s@),
{
    let n = s.unicode_len();
    let mut i: usize = 0;
    while i < n
        invariant
            n == s@.len(),
            i <= n,
            forall|j: int| 0 <= j < i ==> valid_char(#[trigger] s@[j]),
        decreases n - i,
    {
        let c = s.get_char(i);
        if !(' ' <= c && c <= '~') {
            return false;
        }
        i = i + 1;
    }
    true
}

fn check_key(s: &str) -> (r: Result<(), CmdlineError>)
    requires
        valid_text(s@),
    ensures
        r is Ok <==> valid_key(s@),
{
    let n = s.unicode_len();
    let mut i: usize = 0;
    while i < n
        invariant
            n == s@.len(),
            i <= n,
            forall|j: int| 0 <= j < i ==> #[trigger] s@[j] != ' ' && s@[j] != '=',
        decreases n - i,
    {
        let c = s.get_char(i);
        if c == ' ' {
            return Err(CmdlineError::HasSpace);
        }
        if c == '=' {
            return Err(CmdlineError::HasEquals);
        }
        i = i + 1;
    }
    Ok(())
}

} // verus!
