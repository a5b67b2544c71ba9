//! The proxy's configuration: the structured document the program is given
//! at startup, and the small amount of logic around it — resolving the
//! configuration file name, checking the revision marker, and the text of
//! the default configuration file.
//!
//! Reading the file from disk and decoding the document format happen
//! outside the library; the library only works on the resolved values.

use vstd::prelude::*;
use vstd::string::StrSliceExecFns;
use vstd::string::StringExecFns;

verus! {

/// The whole configuration, immutable once loaded.
#[derive(Debug)]
pub struct Config {
    pub revision: String,
    pub bind: String,
    pub executable: Executable,
    pub process: Process,
}

/// How to launch the backend: the command, its arguments, and the working
/// directory to run it in.
#[derive(Debug)]
pub struct Executable {
    pub command: String,
    pub args: Vec<String>,
    pub path: String,
}

/// The backend process policy: how many seconds of inactivity to allow
/// before eviction, how many seconds of cold-start grace to show the client,
/// whether the backend inherits the standard streams, and the port the
/// backend listens on.
#[derive(Debug)]
pub struct Process {
    pub inactivity: u16,
    pub load: u8,
    pub pipe: bool,
    pub port: u16,
}

/// Whether `s` ends in the configuration file extension `.toml`.
pub open spec fn spec_ends_with_toml(s: Seq<char>) -> bool {
    s.len() >= 5 && s.subrange(s.len() - 5, s.len() as int) == ".toml"@
}

/// Whether `path` already carries the `.toml` extension.
pub fn ends_with_toml(path: &str) -> (r: bool)
    ensures
        r == spec_ends_with_toml(path@),
{
    proof {
        reveal_strlit(".toml");
    }
    let n = path.unicode_len();
    if n < 5 {
        return false;
    }
    let r = path.get_char(n - 5) == '.' && path.get_char(n - 4) == 't' && path.get_char(n - 3)
        == 'o' && path.get_char(n - 2) == 'm' && path.get_char(n - 1) == 'l';
    proof {
        let su = path@.subrange(n - 5, n as int);
        assert(su[0] == path@[n - 5]);
        assert(su[1] == path@[n - 4]);
        assert(su[2] == path@[n - 3]);
        assert(su[3] == path@[n - 2]);
        assert(su[4] == path@[n - 1]);
        if r {
            assert(su =~= ".toml"@);
        }
    }
    r
}

/// The file name the configuration is read from: the given path, with
/// `.toml` appended when it does not already end in it.
pub fn config_file_path(path: &str) -> (r: String)
    ensures
        spec_ends_with_toml(path@) ==> r@ == path@,
        !spec_ends_with_toml(path@) ==> r@ == path@ + ".toml"@,
{
    if ends_with_toml(path) {
        path.to_owned()
    } else {
        path.to_owned().concat(".toml")
    }
}

/// Whether the configuration carries the revision marker this program was
/// written for. A mismatch is only warned about, never fatal, so the check
/// is a plain predicate.
pub fn revision_matches(c: &Config) -> (r: bool)
    ensures
        r == (c.revision@ == "A"@),
{
    let expected = String::from_str("A");
    c.revision == expected
}

/// The text of the default configuration file.
pub open spec fn spec_default_config_text() -> Seq<char> {
    "# Mukduk Config File\nrevision = \"A\"\nbind = \"127.0.0.1:8080\"\n\n[executable]\n# The command to run\ncommand = \"server\"\nargs = [\"--port 8081\"]\npath = \".\"\n\n[process]\n# How long the process should run while inactive\ninactivity = 600\n# How long the user should wait before being redirected\nload = 10\n# Whether to pass through stdout, stdin and stderr\npipe = true\n# The port the program listens to\nport = 8081\n\n"@
}

/// The default configuration file, as written when the operator asks for
/// one to be generated.
pub fn default_config_text() -> (t: String)
    ensures
        t@ == spec_default_config_text(),
{
    String::from_str(
        "# Mukduk Config File\nrevision = \"A\"\nbind = \"127.0.0.1:8080\"\n\n[executable]\n# The command to run\ncommand = \"server\"\nargs = [\"--port 8081\"]\npath = \".\"\n\n[process]\n# How long the process should run while inactive\ninactivity = 600\n# How long the user should wait before being redirected\nload = 10\n# Whether to pass through stdout, stdin and stderr\npipe = true\n# The port the program listens to\nport = 8081\n\n",
    )
}

} // verus!
