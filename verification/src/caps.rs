//! A plain model of the WebDriver capabilities object: the only field this
//! library ever writes is the browser binary path; everything else rides
//! along untouched as argument strings.

use vstd::prelude::*;
use vstd::string::StringExecFns;

verus! {

/// The capabilities handed to `launch`: the Chrome binary path, once set,
/// and the caller's browser arguments.
pub struct Capabilities {
    pub binary: Option<String>,
    pub args: Vec<String>,
}

impl Capabilities {
    /// Fresh capabilities: no binary, no arguments.
    pub fn new() -> (c: Capabilities)
        ensures
            c.binary is None,
            c.args@.len() == 0,
    {
        Capabilities { binary: Option::None, args: Vec::new() }
    }

    /// Appends one browser argument; the binary field is untouched.
    pub fn add_arg(&mut self, arg: String)
        ensures
            final (self).args@ == old(self).args@.push(arg),
            final (self).binary == old(self).binary,
    {
        self.args.push(arg);
    }

    /// Writes the browser binary path; the arguments are untouched.
    pub fn set_binary(&mut self, path: &str)
        ensures
            final (self).binary matches Some(b) && b@ == path@,
            final (self).args == old(self).args,
    {
        self.binary = Option::Some(String::from_str(path));
    }
}

} // verus!
