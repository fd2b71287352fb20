//! The external tool that installs packages and scaffolds projects: which
//! command line to run, and how its result is read.

use vstd::prelude::*;
use vstd::string::StringExecFns;
use vstd::utf8::{decode_utf8, valid_utf8};
use crate::views::texts_of;

verus! {

/// The program that is run, both to install and to scaffold.
pub const TOOL_PROGRAM: &'static str = "npm";

/// Subcommand that installs a package.
pub const INSTALL_COMMAND: &'static str = "install";

/// Subcommand that scaffolds a project.
pub const INIT_COMMAND: &'static str = "init";

/// Flag that makes scaffolding accept every default without asking.
pub const INIT_ACCEPT_DEFAULTS: &'static str = "-y";

/// How a run of the installer ended.
#[derive(Debug, PartialEq, Eq)]
pub struct InstallerExit {
    /// Whether the exit status reports success.
    pub success: bool,
    /// What the installer wrote to its standard-error stream.
    pub stderr: Vec<u8>,
}

/// Mathematical form of an [`InstallerExit`].
pub ghost struct InstallerExitView {
    pub success: bool,
    pub stderr: Seq<u8>,
}

impl View for InstallerExit {
    type V = InstallerExitView;

    open spec fn view(&self) -> InstallerExitView {
        InstallerExitView { success: self.success, stderr: self.stderr@ }
    }
}

/// The text that `String::from_utf8_lossy` reads from `bytes`.
pub uninterp spec fn lossy_text_of(bytes: Seq<u8>) -> Seq<char>;

/// Calls `String::from_utf8_lossy` and takes ownership of the text. Trusted:
/// the decoding depends on the bytes alone, so the result is the text that
/// `lossy_text_of` names; and bytes that are valid UTF-8 are read as the
/// text they encode, with nothing replaced.
#[verifier::external_body]
pub(crate) fn lossy_text(bytes: &[u8]) -> (text: String)
    ensures
        text@ == lossy_text_of(bytes@),
        valid_utf8(bytes@) ==> text@ == decode_utf8(bytes@),
{
    String::from_utf8_lossy(bytes).into_owned()
}

/// What the installer is asked to install: `<target>@<version>`.
pub open spec fn package_spec_of(target: Seq<char>, version: Seq<char>) -> Seq<char> {
    target + "@"@ + version
}

/// The installer's arguments for `target` at `version`.
pub open spec fn install_arguments_of(target: Seq<char>, version: Seq<char>) -> Seq<Seq<char>> {
    seq![INSTALL_COMMAND@, package_spec_of(target, version)]
}

/// The scaffolding tool's arguments.
pub open spec fn init_arguments_of() -> Seq<Seq<char>> {
    seq![INIT_COMMAND@, INIT_ACCEPT_DEFAULTS@]
}

/// Builds `<target>@<version>`.
pub fn package_spec(target: &str, version: &str) -> (wanted: String)
    ensures
        wanted@ == package_spec_of(target@, version@),
{
    let mut wanted = String::from_str(target);
    wanted.append("@");
    wanted.append(version);
    wanted
}

/// Builds the installer's arguments for `target` at `version`.
pub fn install_arguments(target: &str, version: &str) -> (arguments: Vec<String>)
    ensures
        texts_of(arguments@) == install_arguments_of(target@, version@),
{
    let mut arguments: Vec<String> = Vec::new();
    arguments.push(String::from_str(INSTALL_COMMAND));
    arguments.push(package_spec(target, version));
    assert(texts_of(arguments@) =~= install_arguments_of(target@, version@));
    arguments
}

/// Builds the scaffolding tool's arguments.
pub fn init_arguments() -> (arguments: Vec<String>)
    ensures
        texts_of(arguments@) == init_arguments_of(),
{
    let mut arguments: Vec<String> = Vec::new();
    arguments.push(String::from_str(INIT_COMMAND));
    arguments.push(String::from_str(INIT_ACCEPT_DEFAULTS));
    assert(texts_of(arguments@) =~= init_arguments_of());
    arguments
}

/// Reads what the installer wrote to standard error as text, for the
/// diagnostic stream. Output that is valid UTF-8 is read as the text it
/// encodes.
pub fn diagnostic_text(exit: &InstallerExit) -> (text: String)
    ensures
        text@ == lossy_text_of(exit@.stderr),
        valid_utf8(exit@.stderr) ==> text@ == decode_utf8(exit@.stderr),
{
    lossy_text(exit.stderr.as_slice())
}

} // verus!
