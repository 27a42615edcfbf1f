//! Script source text together with the path it was read from.

use vstd::prelude::*;
use vstd::string::*;

verus! {

/// A piece of script code and the path under which the engine knows it.
#[derive(Debug)]
pub struct EsScript {
    path: String,
    code: String,
}

/// The mathematical content of an [`EsScript`].
pub struct EsScriptView {
    pub path: Seq<char>,
    pub code: Seq<char>,
}

impl View for EsScript {
    type V = EsScriptView;

    closed spec fn view(&self) -> EsScriptView {
        EsScriptView { path: self.path@, code: self.code@ }
    }
}

impl EsScript {
    pub fn new(path: &str, code: &str) -> (script: EsScript)
        ensures
            script@ == (EsScriptView { path: path@, code: code@ }),
    {
        EsScript { path: String::from_str(path), code: String::from_str(code) }
    }

    pub fn get_path(&self) -> (path: &str)
        ensures
            path@ == self@.path,
    {
        self.path.as_str()
    }

    pub fn get_code(&self) -> (code: &str)
        ensures
            code@ == self@.code,
    {
        self.code.as_str()
    }
}

impl Clone for EsScript {
    fn clone(&self) -> (script: EsScript)
        ensures
            script@ == self@,
    {
        EsScript { path: self.path.clone(), code: self.code.clone() }
    }
}

} // verus!
