use vstd::prelude::*;

verus! {

#[derive(Debug)]
pub enum FilePathError {
    Empty,
    Invalid(String),
}

/// The text of a file path error.
pub open spec fn file_path_error_text(e: FilePathError) -> Seq<char> {
    match e {
        FilePathError::Empty => "File path cannot be empty"@,
        FilePathError::Invalid(s) => "Invalid file path: "@ + s@,
    }
}

impl FilePathError {
    /// The text of the error, for display.
    pub fn message(&self) -> (r: String)
        ensures
            r@ == file_path_error_text(*self),
    {
        match self {
            FilePathError::Empty => "File path cannot be empty".to_owned(),
            FilePathError::Invalid(s) => {
                let mut m = "Invalid file path: ".to_owned();
                m.append(s.as_str());
                m
            },
        }
    }
}

/// A non-empty path, relative or absolute.
#[derive(Debug, PartialEq, Eq, Hash)]
pub struct FilePath(String);

impl FilePath {
    #[verifier::type_invariant]
    spec fn well_formed(&self) -> bool {
        self.0@.len() > 0
    }

    pub fn new(path: String) -> (r: Result<FilePath, FilePathError>)
        ensures
            match r {
                Ok(p) => path@.len() > 0 && p@ == path@,
                Err(e) => path@.len() == 0 && e is Empty,
            },
    {
        if path.as_str().is_empty() {
            return Err(FilePathError::Empty);
        }
        Ok(FilePath(path))
    }

    /// The path as text; a path made from a string always has one.
    pub fn as_str(&self) -> (r: Option<&str>)
        ensures
            r is Some && r->Some_0@ == self@,
    {
        Some(self.0.as_str())
    }

    pub fn to_string_lossy(&self) -> (r: String)
        ensures
            r@ == self@,
    {
        self.0.clone()
    }

    /// The path as an owned string.
    pub fn to_string(&self) -> (r: String)
        ensures
            r@ == self@,
    {
        self.0.clone()
    }
}

impl View for FilePath {
    type V = Seq<char>;

    closed spec fn view(&self) -> Seq<char> {
        self.0@
    }
}

impl Clone for FilePath {
    fn clone(&self) -> (r: Self)
        ensures
            r == *self,
    {
        proof {
            use_type_invariant(self);
        }
        FilePath(self.0.clone())
    }
}

} // verus!
