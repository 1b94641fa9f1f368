use vstd::prelude::*;

verus! {

/// Number of characters of a full object identifier.
pub const HASH_LEN: usize = 40;

/// Number of characters of the short form of an identifier.
pub const SHORT_LEN: usize = 7;

/// `c` is an ASCII hexadecimal digit, in either case.
pub open spec fn is_hex_digit(c: char) -> bool {
    ||| ('0' as u32 <= c as u32 && c as u32 <= '9' as u32)
    ||| ('a' as u32 <= c as u32 && c as u32 <= 'f' as u32)
    ||| ('A' as u32 <= c as u32 && c as u32 <= 'F' as u32)
}

/// A full object identifier: forty hexadecimal digits.
pub open spec fn is_valid_commit_hash(s: Seq<char>) -> bool {
    &&& s.len() == HASH_LEN
    &&& forall|i: int| 0 <= i < s.len() ==> is_hex_digit(#[trigger] s[i])
}

#[derive(Debug)]
pub enum CommitHashError {
    Empty,
    InvalidFormat(String),
}

/// The error that `CommitHash::new` gives for `hash`.
pub open spec fn commit_hash_rejection(e: CommitHashError, hash: Seq<char>) -> bool {
    match e {
        CommitHashError::Empty => hash.len() == 0,
        CommitHashError::InvalidFormat(s) => hash.len() > 0 && !is_valid_commit_hash(hash)
            && s@ == hash,
    }
}

/// The text of a commit hash error.
pub open spec fn commit_hash_error_text(e: CommitHashError) -> Seq<char> {
    match e {
        CommitHashError::Empty => "Commit hash cannot be empty"@,
        CommitHashError::InvalidFormat(s) => "Invalid commit hash format: "@ + s@,
    }
}

impl CommitHashError {
    /// The text of the error, for display.
    pub fn message(&self) -> (r: String)
        ensures
            r@ == commit_hash_error_text(*self),
    {
        match self {
            CommitHashError::Empty => "Commit hash cannot be empty".to_owned(),
            CommitHashError::InvalidFormat(s) => {
                let mut m = "Invalid commit hash format: ".to_owned();
                m.append(s.as_str());
                m
            },
        }
    }
}

fn hex_digit(c: char) -> (r: bool)
    ensures
        r == is_hex_digit(c),
{
    let v = c as u32;
    ('0' as u32 <= v && v <= '9' as u32) || ('a' as u32 <= v && v <= 'f' as u32) || ('A' as u32
        <= v && v <= 'F' as u32)
}

/// Whether every character of the text is a hexadecimal digit.
fn all_hex_digits(s: &str) -> (r: bool)
    ensures
        r == forall|i: int| 0 <= i < s@.len() ==> is_hex_digit(#[trigger] s@[i]),
{
    let n = s.unicode_len();
    let mut i: usize = 0;
    while i < n
        invariant
            n == s@.len(),
            i <= n,
            forall|k: int| 0 <= k < i ==> is_hex_digit(#[trigger] s@[k]),
        decreases n - i,
    {
        if !hex_digit(s.get_char(i)) {
            return false;
        }
        i = i + 1;
    }
    true
}

/// A validated full object identifier.
#[derive(Debug, PartialEq, Eq, Hash)]
pub struct CommitHash(String);

impl CommitHash {
    #[verifier::type_invariant]
    spec fn well_formed(&self) -> bool {
        is_valid_commit_hash(self.0@)
    }

    pub fn new(hash: String) -> (r: Result<CommitHash, CommitHashError>)
        ensures
            match r {
                Ok(h) => is_valid_commit_hash(hash@) && h@ == hash@,
                Err(e) => !is_valid_commit_hash(hash@) && commit_hash_rejection(e, hash@),
            },
    {
        let n = hash.as_str().unicode_len();
        if n == 0 {
            return Err(CommitHashError::Empty);
        }
        if n != HASH_LEN || !all_hex_digits(hash.as_str()) {
            return Err(CommitHashError::InvalidFormat(hash));
        }
        Ok(CommitHash(hash))
    }

    pub fn as_str(&self) -> (r: &str)
        ensures
            r@ == self@,
    {
        self.0.as_str()
    }

    /// The first seven characters, for display.
    pub fn short(&self) -> (r: &str)
        ensures
            r@ == self@.subrange(0, SHORT_LEN as int),
    {
        proof {
            use_type_invariant(self);
        }
        self.0.as_str().substring_char(0, SHORT_LEN)
    }

    /// The identifier as an owned string.
    pub fn to_string(&self) -> (r: String)
        ensures
            r@ == self@,
    {
        self.0.clone()
    }

    /// Whether both identifiers hold the same characters.
    pub fn same_as(&self, other: &CommitHash) -> (r: bool)
        ensures
            r == (self@ == other@),
    {
        self.0 == other.0
    }
}

impl View for CommitHash {
    type V = Seq<char>;

    closed spec fn view(&self) -> Seq<char> {
        self.0@
    }
}

impl Clone for CommitHash {
    fn clone(&self) -> (r: Self)
        ensures
            r == *self,
    {
        proof {
            use_type_invariant(self);
        }
        CommitHash(self.0.clone())
    }
}

impl From<CommitHash> for String {
    fn from(h: CommitHash) -> (r: String) {
        h.0
    }
}

impl vstd::std_specs::convert::FromSpecImpl<CommitHash> for String {
    open spec fn obeys_from_spec() -> bool {
        true
    }

    closed spec fn from_spec(v: CommitHash) -> String {
        v.0
    }
}

} // verus!
