use vstd::prelude::*;

verus! {

/// `s` holds two dots in a row.
pub open spec fn has_double_dot(s: Seq<char>) -> bool {
    exists|i: int| #![trigger s[i]] 0 <= i && i + 1 < s.len() && s[i] == '.' && s[i + 1] == '.'
}

/// A branch name is non-empty, holds no `..`, and neither starts nor ends with `.`.
pub open spec fn is_valid_branch_name(s: Seq<char>) -> bool {
    &&& s.len() > 0
    &&& !has_double_dot(s)
    &&& s[0] != '.'
    &&& s.last() != '.'
}

#[derive(Debug)]
pub enum BranchNameError {
    Empty,
    InvalidCharacters(String),
}

/// The error that `BranchName::new` gives for `name`.
pub open spec fn branch_name_rejection(e: BranchNameError, name: Seq<char>) -> bool {
    match e {
        BranchNameError::Empty => name.len() == 0,
        BranchNameError::InvalidCharacters(s) => name.len() > 0 && !is_valid_branch_name(name)
            && s@ == name,
    }
}

/// The text of a branch name error.
pub open spec fn branch_name_error_text(e: BranchNameError) -> Seq<char> {
    match e {
        BranchNameError::Empty => "Branch name cannot be empty"@,
        BranchNameError::InvalidCharacters(s) => "Branch name contains invalid characters: "@ + s@,
    }
}

impl BranchNameError {
    /// The text of the error, for display.
    pub fn message(&self) -> (r: String)
        ensures
            r@ == branch_name_error_text(*self),
    {
        match self {
            BranchNameError::Empty => "Branch name cannot be empty".to_owned(),
            BranchNameError::InvalidCharacters(s) => {
                let mut m = "Branch name contains invalid characters: ".to_owned();
                m.append(s.as_str());
                m
            },
        }
    }
}

/// Whether the text holds `..`.
fn contains_double_dot(s: &str) -> (r: bool)
    ensures
        r == has_double_dot(s@),
{
    let n = s.unicode_len();
    let mut i: usize = 0;
    let mut prev_dot = false;
    while i < n
        invariant
            n == s@.len(),
            i <= n,
            prev_dot == (i > 0 && s@[i - 1] == '.'),
            forall|k: int| #![trigger s@[k]] 0 <= k && k + 1 < i ==> !(s@[k] == '.' && s@[k + 1] == '.'),
        decreases n - i,
    {
        let c = s.get_char(i);
        if prev_dot && c == '.' {
            assert(s@[i - 1] == '.' && s@[(i - 1) + 1] == '.');
            return true;
        }
        prev_dot = c == '.';
        i = i + 1;
    }
    false
}

/// A validated branch name.
#[derive(Debug, PartialEq, Eq, Hash)]
pub struct BranchName(String);

impl BranchName {
    #[verifier::type_invariant]
    spec fn well_formed(&self) -> bool {
        is_valid_branch_name(self.0@)
    }

    pub fn new(name: String) -> (r: Result<BranchName, BranchNameError>)
        ensures
            match r {
                Ok(b) => is_valid_branch_name(name@) && b@ == name@,
                Err(e) => !is_valid_branch_name(name@) && branch_name_rejection(e, name@),
            },
    {
        let n = name.as_str().unicode_len();
        if n == 0 {
            return Err(BranchNameError::Empty);
        }
        if contains_double_dot(name.as_str()) || name.as_str().get_char(0) == '.'
            || name.as_str().get_char(n - 1) == '.' {
            return Err(BranchNameError::InvalidCharacters(name));
        }
        Ok(BranchName(name))
    }

    pub fn as_str(&self) -> (r: &str)
        ensures
            r@ == self@,
    {
        self.0.as_str()
    }

    /// The name as an owned string.
    pub fn to_string(&self) -> (r: String)
        ensures
            r@ == self@,
    {
        self.0.clone()
    }
}

impl View for BranchName {
    type V = Seq<char>;

    closed spec fn view(&self) -> Seq<char> {
        self.0@
    }
}

impl Clone for BranchName {
    fn clone(&self) -> (r: Self)
        ensures
            r == *self,
    {
        proof {
            use_type_invariant(self);
        }
        BranchName(self.0.clone())
    }
}

impl From<BranchName> for String {
    fn from(b: BranchName) -> (r: String) {
        b.0
    }
}

impl vstd::std_specs::convert::FromSpecImpl<BranchName> for String {
    open spec fn obeys_from_spec() -> bool {
        true
    }

    closed spec fn from_spec(v: BranchName) -> String {
        v.0
    }
}

} // verus!
