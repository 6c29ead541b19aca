//! Binary resolution for locally launched nodes: the provider kinds (an
//! environment override, an explicit path, a build command, a download),
//! their display names and cache keys, the paths they use, the
//! per-process cache of resolved binaries, the provider lock protocol, and
//! checksum verification of downloads. Looking at the file system, running
//! builds and fetching downloads are the caller's part.

use sha2::Digest;

use vstd::prelude::*;

use crate::text::{
    ascii_lowercase, digit_char, join, join_strings, owned, push_char, str_eq, to_ascii_lowercase, views,
};

verus! {

/// The lowercase hexadecimal digit for `d` (`d < 16`).
pub open spec fn hex_digit(d: nat) -> char {
    if d < 10 {
        digit_char(d)
    } else if d == 10 {
        'a'
    } else if d == 11 {
        'b'
    } else if d == 12 {
        'c'
    } else if d == 13 {
        'd'
    } else if d == 14 {
        'e'
    } else {
        'f'
    }
}

/// Lowercase hexadecimal rendering of a natural number, without leading
/// zeros.
pub open spec fn hex(n: nat) -> Seq<char>
    decreases n,
{
    if n < 16 {
        seq![hex_digit(n)]
    } else {
        hex(n / 16).push(hex_digit(n % 16))
    }
}

/// Two lowercase hexadecimal digits of a byte.
pub open spec fn byte_hex(b: u8) -> Seq<char> {
    seq![hex_digit((b / 16) as nat), hex_digit((b % 16) as nat)]
}

/// Lowercase hexadecimal rendering of bytes, two digits per byte.
pub open spec fn bytes_hex(bytes: Seq<u8>) -> Seq<char>
    decreases bytes.len(),
{
    if bytes.len() == 0 {
        Seq::empty()
    } else {
        bytes_hex(bytes.drop_last()) + byte_hex(bytes.last())
    }
}

fn hex_char(d: u64) -> (c: char)
    requires
        d < 16,
    ensures
        c == hex_digit(d as nat),
{
    if d == 0 {
        '0'
    } else if d == 1 {
        '1'
    } else if d == 2 {
        '2'
    } else if d == 3 {
        '3'
    } else if d == 4 {
        '4'
    } else if d == 5 {
        '5'
    } else if d == 6 {
        '6'
    } else if d == 7 {
        '7'
    } else if d == 8 {
        '8'
    } else if d == 9 {
        '9'
    } else if d == 10 {
        'a'
    } else if d == 11 {
        'b'
    } else if d == 12 {
        'c'
    } else if d == 13 {
        'd'
    } else if d == 14 {
        'e'
    } else {
        'f'
    }
}

/// Renders a number in lowercase hexadecimal.
pub fn u64_to_hex(n: u64) -> (s: String)
    ensures
        s@ == hex(n as nat),
    decreases n,
{
    if n < 16 {
        let mut s = String::new();
        push_char(&mut s, hex_char(n));
        assert(s@ =~= seq![hex_digit(n as nat)]);
        s
    } else {
        let mut s = u64_to_hex(n / 16);
        push_char(&mut s, hex_char(n % 16));
        s
    }
}

/// Renders bytes in lowercase hexadecimal, two digits per byte.
pub fn encode_hex(bytes: &[u8]) -> (s: String)
    ensures
        s@ == bytes_hex(bytes@),
{
    let mut s = String::new();
    let mut i: usize = 0;
    while i < bytes.len()
        invariant
            i <= bytes.len(),
            s@ == bytes_hex(bytes@.take(i as int)),
        decreases bytes.len() - i,
    {
        let b = bytes[i];
        push_char(&mut s, hex_char((b / 16) as u64));
        push_char(&mut s, hex_char((b % 16) as u64));
        assert(bytes@.take(i + 1).drop_last() =~= bytes@.take(i as int));
        assert(s@ =~= bytes_hex(bytes@.take(i as int)) + byte_hex(b));
        i = i + 1;
    }
    assert(bytes@.take(bytes.len() as int) =~= bytes@);
    s
}

/// The SHA-256 digest of `data`.
pub uninterp spec fn sha256_of(data: Seq<u8>) -> Seq<u8>;

/// Computes the SHA-256 digest of `data` with `sha2::Sha256::digest`. The
/// contract claims that the result is the digest named `sha256_of(data)`
/// and that it has the 32 bytes of the algorithm's output size.
#[verifier::external_body]
fn sha256_digest(data: &[u8]) -> (r: Vec<u8>)
    ensures
        r@ == sha256_of(data@),
        r@.len() == 32,
{
    sha2::Sha256::digest(data).to_vec()
}

/// The lowercase hexadecimal SHA-256 checksum of `data`.
pub open spec fn checksum_hex(data: Seq<u8>) -> Seq<char> {
    bytes_hex(sha256_of(data))
}

/// Computes the lowercase hexadecimal SHA-256 checksum of `data`.
pub fn encode_sha256(data: &[u8]) -> (r: String)
    ensures
        r@ == checksum_hex(data@),
{
    let digest = sha256_digest(data);
    encode_hex(digest.as_slice())
}

/// The `Debug` rendering of a string: quoted, with quotes, backslashes and
/// the ASCII control characters escaped.
pub open spec fn debug_quoted(s: Seq<char>) -> Seq<char> {
    seq!['"'] + debug_escaped(s) + seq!['"']
}

/// `s` with quotes, backslashes and ASCII control characters escaped: NUL,
/// tab, carriage return and line feed by their short escapes, the others as
/// `\u{..}` with the code in hexadecimal.
pub open spec fn debug_escaped(s: Seq<char>) -> Seq<char>
    decreases s.len(),
{
    if s.len() == 0 {
        Seq::empty()
    } else {
        debug_escaped(s.drop_last()) + escape_char(s.last())
    }
}

/// One character as `Debug` escapes it inside a string.
pub open spec fn escape_char(c: char) -> Seq<char> {
    if c == '"' {
        seq!['\\', '"']
    } else if c == '\\' {
        seq!['\\', '\\']
    } else if c == '\n' {
        seq!['\\', 'n']
    } else if c == '\r' {
        seq!['\\', 'r']
    } else if c == '\t' {
        seq!['\\', 't']
    } else if c == '\0' {
        seq!['\\', '0']
    } else if (c as u32) < 0x20 || c as u32 == 0x7f {
        seq!['\\', 'u', '{'] + hex(c as u32 as nat) + seq!['}']
    } else {
        seq![c]
    }
}

/// Renders a string the way `Debug` does.
pub fn debug_quote(s: &str) -> (r: String)
    ensures
        r@ == debug_quoted(s@),
{
    let v = crate::text::str_chars(s);
    let mut r = String::new();
    push_char(&mut r, '"');
    let mut i: usize = 0;
    while i < v.len()
        invariant
            i <= v.len(),
            v@ == s@,
            r@ == seq!['"'] + debug_escaped(s@.take(i as int)),
        decreases v.len() - i,
    {
        let c = v[i];
        let ghost before = r@;
        if c == '"' {
            push_char(&mut r, '\\');
            push_char(&mut r, '"');
        } else if c == '\\' {
            push_char(&mut r, '\\');
            push_char(&mut r, '\\');
        } else if c == '\n' {
            push_char(&mut r, '\\');
            push_char(&mut r, 'n');
        } else if c == '\r' {
            push_char(&mut r, '\\');
            push_char(&mut r, 'r');
        } else if c == '\t' {
            push_char(&mut r, '\\');
            push_char(&mut r, 't');
        } else if c == '\0' {
            push_char(&mut r, '\\');
            push_char(&mut r, '0');
        } else if (c as u32) < 0x20 || c as u32 == 0x7f {
            push_char(&mut r, '\\');
            push_char(&mut r, 'u');
            push_char(&mut r, '{');
            r.append(u64_to_hex(c as u32 as u64).as_str());
            push_char(&mut r, '}');
        } else {
            push_char(&mut r, c);
        }
        assert(s@.take(i + 1).drop_last() =~= s@.take(i as int));
        assert(r@ =~= before + escape_char(c));
        i = i + 1;
    }
    assert(s@.take(v.len() as int) =~= s@);
    push_char(&mut r, '"');
    r
}

/// Failures while resolving a binary.
#[derive(Debug, PartialEq, Eq)]
pub enum BinaryProviderError {
    /// The provider completed without producing an executable path.
    NotFound { provider: String },
    /// The build command returned a non-zero status.
    BuildFailed { status: String },
    /// The build succeeded but did not create the configured output file.
    MissingBuildOutput { path: String },
    /// The download URL's environment variable is not set.
    MissingDownloadUrl { env_var: String },
    /// The path provider received a relative path.
    RelativePath { path: String },
    /// The download failed or returned an error status.
    Download { url: String, source: String },
    /// The downloaded bytes do not match the configured checksum.
    ChecksumMismatch { path: String, expected: String, actual: String },
    /// A download processor did not create its output.
    MissingProcessedOutput { processor: String, path: String },
    /// A download processor failed.
    DownloadProcessing { processor: String, source: String },
    /// A file system operation failed.
    Io { path: String, source: String },
    /// Another process held the provider lock for too long.
    LockTimeout { path: String },
}

impl BinaryProviderError {
    /// The human-readable message of the error.
    pub open spec fn message_view(&self) -> Seq<char> {
        match self {
            BinaryProviderError::NotFound { provider } =>
                "binary could not be resolved by provider "@ + provider@,
            BinaryProviderError::BuildFailed { status } => "build command failed with status "@ + status@,
            BinaryProviderError::MissingBuildOutput { path } =>
                "build command did not produce configured binary output "@ + debug_quoted(path@),
            BinaryProviderError::MissingDownloadUrl { env_var } =>
                "download provider requires env var "@ + env_var@ + " to contain a binary URL"@,
            BinaryProviderError::RelativePath { path } => "binary path must be absolute: "@ + debug_quoted(path@),
            BinaryProviderError::Download { url, source } =>
                "failed to download binary from "@ + url@ + ": "@ + source@,
            BinaryProviderError::ChecksumMismatch { path, expected, actual } =>
                "downloaded binary sha256 mismatch for "@ + debug_quoted(path@) + ": expected "@ + expected@
                    + ", got "@ + actual@,
            BinaryProviderError::MissingProcessedOutput { processor, path } =>
                "download processor "@ + processor@ + " did not produce binary output "@ + debug_quoted(path@),
            BinaryProviderError::DownloadProcessing { processor, source } =>
                "download processor "@ + processor@ + " failed: "@ + source@,
            BinaryProviderError::Io { path, source } =>
                "failed to prepare binary path "@ + debug_quoted(path@) + ": "@ + source@,
            BinaryProviderError::LockTimeout { path } =>
                "timed out waiting for binary provider lock "@ + debug_quoted(path@),
        }
    }

    /// The human-readable message of the error.
    pub fn message(&self) -> (r: String)
        ensures
            r@ == self.message_view(),
    {
        match self {
            BinaryProviderError::NotFound { provider } => {
                let mut r = owned("binary could not be resolved by provider ");
                r.append(provider.as_str());
                r
            },
            BinaryProviderError::BuildFailed { status } => {
                let mut r = owned("build command failed with status ");
                r.append(status.as_str());
                r
            },
            BinaryProviderError::MissingBuildOutput { path } => {
                let mut r = owned("build command did not produce configured binary output ");
                r.append(debug_quote(path.as_str()).as_str());
                r
            },
            BinaryProviderError::MissingDownloadUrl { env_var } => {
                let mut r = owned("download provider requires env var ");
                r.append(env_var.as_str());
                r.append(" to contain a binary URL");
                r
            },
            BinaryProviderError::RelativePath { path } => {
                let mut r = owned("binary path must be absolute: ");
                r.append(debug_quote(path.as_str()).as_str());
                r
            },
            BinaryProviderError::Download { url, source } => {
                let mut r = owned("failed to download binary from ");
                r.append(url.as_str());
                r.append(": ");
                r.append(source.as_str());
                r
            },
            BinaryProviderError::ChecksumMismatch { path, expected, actual } => {
                let mut r = owned("downloaded binary sha256 mismatch for ");
                r.append(debug_quote(path.as_str()).as_str());
                r.append(": expected ");
                r.append(expected.as_str());
                r.append(", got ");
                r.append(actual.as_str());
                r
            },
            BinaryProviderError::MissingProcessedOutput { processor, path } => {
                let mut r = owned("download processor ");
                r.append(processor.as_str());
                r.append(" did not produce binary output ");
                r.append(debug_quote(path.as_str()).as_str());
                r
            },
            BinaryProviderError::DownloadProcessing { processor, source } => {
                let mut r = owned("download processor ");
                r.append(processor.as_str());
                r.append(" failed: ");
                r.append(source.as_str());
                r
            },
            BinaryProviderError::Io { path, source } => {
                let mut r = owned("failed to prepare binary path ");
                r.append(debug_quote(path.as_str()).as_str());
                r.append(": ");
                r.append(source.as_str());
                r
            },
            BinaryProviderError::LockTimeout { path } => {
                let mut r = owned("timed out waiting for binary provider lock ");
                r.append(debug_quote(path.as_str()).as_str());
                r
            },
        }
    }
}

/// The resolution that a provider's attempt amounts to: an unresolved
/// attempt is the provider's "not found" error.
pub open spec fn resolution_of(attempt: Result<Option<String>, BinaryProviderError>, display: String) -> Result<String, BinaryProviderError> {
    match attempt {
        Ok(Some(p)) => Ok(p),
        Ok(None) => Err(BinaryProviderError::NotFound { provider: display }),
        Err(e) => Err(e),
    }
}

/// Turns the outcome of a provider's attempt into its resolution: an
/// unresolved attempt becomes the provider's "not found" error.
pub fn resolve_uncached(attempt: Result<Option<String>, BinaryProviderError>, display: String) -> (r: Result<String, BinaryProviderError>)
    ensures
        attempt matches Ok(Some(p)) ==> r == Ok::<String, BinaryProviderError>(p),
        attempt matches Ok(None) ==> r == Err::<String, BinaryProviderError>(
            BinaryProviderError::NotFound { provider: display },
        ),
        attempt matches Err(e) ==> r == Err::<String, BinaryProviderError>(e),
        r == resolution_of(attempt, display),
{
    match attempt {
        Ok(Some(p)) => Ok(p),
        Ok(None) => Err(BinaryProviderError::NotFound { provider: display }),
        Err(e) => Err(e),
    }
}

/// The path of an optional directory, or nothing.
pub fn optional_path_display(path: &Option<String>) -> (r: String)
    ensures
        path matches Some(p) ==> r@ == p@,
        path is None ==> r@ == Seq::<char>::empty(),
{
    match path {
        Some(p) => p.clone(),
        None => String::new(),
    }
}

/// The view of an optional directory as `optional_path_display` renders it.
pub open spec fn optional_path(path: Option<String>) -> Seq<char> {
    match path {
        Some(p) => p@,
        None => Seq::empty(),
    }
}

/// Whether a path is absolute: on Unix, whether it starts at the root.
pub open spec fn is_absolute(path: Seq<char>) -> bool {
    path.len() > 0 && path[0] == '/'
}

/// `rel` joined onto `base`: an absolute `rel` replaces `base`, otherwise
/// one `/` separates them.
pub open spec fn path_join(base: Seq<char>, rel: Seq<char>) -> Seq<char> {
    if is_absolute(rel) {
        rel
    } else {
        crate::k8s::workspace::join_path(base, rel)
    }
}

/// Joins a path onto a base directory.
pub fn join_paths(base: &str, rel: &str) -> (r: String)
    ensures
        r@ == path_join(base@, rel@),
{
    if rel.unicode_len() > 0 && rel.get_char(0) == '/' {
        owned(rel)
    } else {
        crate::k8s::workspace::join_relative(base, rel)
    }
}

/// How a binary is located from an environment override, the `PATH`, or a
/// repository-local fallback.
#[derive(Debug, PartialEq, Eq)]
pub struct BinaryConfig {
    /// Environment variable that overrides the binary path.
    pub env_var: String,
    /// Binary name expected on the `PATH`.
    pub binary_name: String,
    /// Fallback path when the `PATH` lookup fails.
    pub fallback_path: String,
}

/// Resolution of a [`BinaryConfig`].
#[derive(Debug, PartialEq, Eq)]
pub struct BinaryResolver;

impl BinaryResolver {
    /// The binary path: the environment override when set, else the match
    /// found on the `PATH`, else the fallback path.
    pub fn resolve_path(config: &BinaryConfig, env_override: Option<String>, on_path: Option<String>) -> (r: String)
        ensures
            env_override matches Some(p) ==> r == p,
            env_override is None ==> (on_path matches Some(p) ==> r == p),
            env_override is None && on_path is None ==> r == config.fallback_path,
    {
        match env_override {
            Some(p) => p,
            None => match on_path {
                Some(p) => p,
                None => config.fallback_path.clone(),
            },
        }
    }
}

/// A provider reading an executable path from an environment variable.
#[derive(Debug, PartialEq, Eq)]
pub struct EnvBinaryProvider {
    /// Variable expected to hold a full executable path.
    pub env_var: String,
}

impl EnvBinaryProvider {
    /// A provider reading `env_var`.
    pub fn new(env_var: String) -> (r: Self)
        ensures
            r.env_var == env_var,
    {
        EnvBinaryProvider { env_var }
    }

    /// Its display name.
    pub fn display(&self) -> (r: String)
        ensures
            r@ == "env"@,
    {
        owned("env")
    }

    /// Its cache key: `env:<var>`.
    pub fn cache_key(&self) -> (r: String)
        ensures
            r@ == "env:"@ + self.env_var@,
    {
        let mut r = owned("env:");
        r.append(self.env_var.as_str());
        r
    }

    /// The outcome given the variable's value and whether it names a file:
    /// a missing value or a non-file is unresolved, so a fallback may go on.
    pub fn try_resolve_with(&self, value: Option<String>, is_file: bool) -> (r: Option<String>)
        ensures
            value matches Some(v) ==> (is_file ==> r == Some(v)),
            !(value is Some && is_file) ==> r is None,
    {
        match value {
            Some(v) => if is_file {
                Some(v)
            } else {
                None
            },
            None => None,
        }
    }
}

/// A provider using an explicitly configured absolute path.
#[derive(Debug, PartialEq, Eq)]
pub struct PathBinaryProvider {
    /// Absolute executable path.
    pub path: String,
}

impl PathBinaryProvider {
    /// A provider using `path`.
    pub fn new(path: String) -> (r: Self)
        ensures
            r.path == path,
    {
        PathBinaryProvider { path }
    }

    /// Its display name.
    pub fn display(&self) -> (r: String)
        ensures
            r@ == "path"@,
    {
        owned("path")
    }

    /// Its cache key: `path:<path>`.
    pub fn cache_key(&self) -> (r: String)
        ensures
            r@ == "path:"@ + self.path@,
    {
        let mut r = owned("path:");
        r.append(self.path.as_str());
        r
    }

    /// Rejects a relative path; otherwise the path when it names a file and
    /// unresolved when it does not.
    pub fn try_resolve_with(&self, is_file: bool) -> (r: Result<Option<String>, BinaryProviderError>)
        ensures
            !is_absolute(self.path@) ==> r == Err::<Option<String>, BinaryProviderError>(
                BinaryProviderError::RelativePath { path: self.path },
            ),
            is_absolute(self.path@) && is_file ==> r == Ok::<Option<String>, BinaryProviderError>(Some(self.path)),
            is_absolute(self.path@) && !is_file ==> r == Ok::<Option<String>, BinaryProviderError>(None),
    {
        let absolute = self.path.as_str().unicode_len() > 0 && self.path.as_str().get_char(0) == '/';
        if !absolute {
            return Err(BinaryProviderError::RelativePath { path: self.path.clone() });
        }
        if !is_file {
            return Ok(None);
        }
        Ok(Some(self.path.clone()))
    }
}

/// A command that prepares an executable.
#[derive(Debug, PartialEq, Eq)]
pub struct BuildCommand {
    /// Program to run.
    pub program: String,
    /// Its arguments.
    pub args: Vec<String>,
}

impl BuildCommand {
    /// Runs `program` without arguments.
    pub fn new(program: String) -> (r: Self)
        ensures
            r.program == program,
            r.args@.len() == 0,
    {
        BuildCommand { program, args: Vec::new() }
    }

    /// Replaces the arguments.
    pub fn with_args(self, args: Vec<String>) -> (r: Self)
        ensures
            r.program == self.program,
            r.args == args,
    {
        BuildCommand { args, ..self }
    }

    /// The command line: program and arguments separated by spaces.
    pub open spec fn display_view(self) -> Seq<char> {
        join(seq![self.program@] + views(self.args@), " "@)
    }

    /// Renders the command line.
    pub fn display(&self) -> (r: String)
        ensures
            r@ == self.display_view(),
    {
        let mut parts: Vec<String> = Vec::new();
        parts.push(self.program.clone());
        let mut i: usize = 0;
        while i < self.args.len()
            invariant
                i <= self.args.len(),
                views(parts@) == seq![self.program@] + views(self.args@).take(i as int),
            decreases self.args.len() - i,
        {
            let ghost before = parts@;
            parts.push(self.args[i].clone());
            assert(views(parts@) =~= views(before).push(self.args@[i as int]@));
            assert(views(parts@) =~= seq![self.program@] + views(self.args@).take(i + 1));
            i = i + 1;
        }
        assert(views(self.args@).take(self.args.len() as int) =~= views(self.args@));
        join_strings(&parts, " ")
    }
}

/// A provider running a build command that produces the executable.
#[derive(Debug, PartialEq, Eq)]
pub struct BuildBinaryProvider {
    /// Command that prepares the executable.
    pub command: BuildCommand,
    /// Executable path expected after the command completes.
    pub output_path: String,
    /// Working directory of the command; the process directory when unset.
    pub working_dir: Option<String>,
    /// Directory of the build lock; `.tf-binaries` in the working directory
    /// when unset.
    pub lock_dir: Option<String>,
}

/// The file name of a path as `Path::file_name` returns it.
pub uninterp spec fn path_file_name(path: Seq<char>) -> Option<Seq<char>>;

/// Calls `std::path::Path::file_name` on `path`, keeping the name only when
/// it is valid UTF-8. The contract names the result `path_file_name(path)`;
/// which name the standard library extracts is not stated here.
#[verifier::external_body]
fn file_name_of(path: &str) -> (r: Option<String>)
    ensures
        match r {
            Some(n) => path_file_name(path@) == Some(n@),
            None => path_file_name(path@) is None,
        },
{
    std::path::Path::new(path).file_name().and_then(|name| name.to_str()).map(|name| name.to_owned())
}

impl BuildBinaryProvider {
    /// A provider running `command` to produce `output_path`.
    pub fn new(command: BuildCommand, output_path: String) -> (r: Self)
        ensures
            r.command == command,
            r.output_path == output_path,
            r.working_dir is None,
            r.lock_dir is None,
    {
        BuildBinaryProvider { command, output_path, working_dir: None, lock_dir: None }
    }

    /// Its display name.
    pub fn display(&self) -> (r: String)
        ensures
            r@ == "build"@,
    {
        owned("build")
    }

    /// Its cache key: `build:<command>:<output>:<working dir>`.
    pub fn cache_key(&self) -> (r: String)
        ensures
            r@ == "build:"@ + self.command.display_view() + ":"@ + self.output_path@ + ":"@ + optional_path(
                self.working_dir,
            ),
    {
        let mut r = owned("build:");
        r.append(self.command.display().as_str());
        r.append(":");
        r.append(self.output_path.as_str());
        r.append(":");
        r.append(optional_path_display(&self.working_dir).as_str());
        r
    }

    /// The working directory: the configured one, else the process
    /// directory `cwd` when known, else `.`.
    pub fn workspace_dir(&self, cwd: Option<String>) -> (r: String)
        ensures
            self.working_dir matches Some(d) ==> r == d,
            self.working_dir is None ==> (cwd matches Some(c) ==> r == c),
            self.working_dir is None && cwd is None ==> r@ == "."@,
    {
        match &self.working_dir {
            Some(d) => d.clone(),
            None => match cwd {
                Some(c) => c,
                None => owned("."),
            },
        }
    }

    /// The executable path: the output path when absolute, otherwise under
    /// the working directory.
    pub fn output_path_in(&self, workspace_dir: &str) -> (r: String)
        ensures
            r@ == path_join(workspace_dir@, self.output_path@),
    {
        join_paths(workspace_dir, self.output_path.as_str())
    }

    /// The build lock: `<output file name>.lock` (`binary.lock` when the
    /// output has no name) in the lock directory, which defaults to
    /// `.tf-binaries` in the working directory.
    pub fn lock_path_in(&self, workspace_dir: &str) -> (r: String)
        ensures
            r@ == path_join(
                match self.lock_dir {
                    Some(d) => d@,
                    None => path_join(workspace_dir@, ".tf-binaries"@),
                },
                match path_file_name(self.output_path@) {
                    Some(n) => n,
                    None => "binary"@,
                } + ".lock"@,
            ),
    {
        let mut file = match file_name_of(self.output_path.as_str()) {
            Some(n) => n,
            None => owned("binary"),
        };
        file.append(".lock");
        let dir = match &self.lock_dir {
            Some(d) => d.clone(),
            None => join_paths(workspace_dir, ".tf-binaries"),
        };
        join_paths(dir.as_str(), file.as_str())
    }

    /// The outcome of the build command: success, or the failure with the
    /// command's exit status.
    pub fn build_outcome(success: bool, status: String) -> (r: Result<(), BinaryProviderError>)
        ensures
            success ==> r is Ok,
            !success ==> r == Err::<(), BinaryProviderError>(BinaryProviderError::BuildFailed { status }),
    {
        if success {
            Ok(())
        } else {
            Err(BinaryProviderError::BuildFailed { status })
        }
    }

    /// The outcome of checking the output after a successful build.
    pub fn output_outcome(output_path: String, is_file: bool) -> (r: Result<String, BinaryProviderError>)
        ensures
            is_file ==> r == Ok::<String, BinaryProviderError>(output_path),
            !is_file ==> r == Err::<String, BinaryProviderError>(
                BinaryProviderError::MissingBuildOutput { path: output_path },
            ),
    {
        if is_file {
            Ok(output_path)
        } else {
            Err(BinaryProviderError::MissingBuildOutput { path: output_path })
        }
    }
}

/// Where a download comes from.
#[derive(Debug, PartialEq, Eq)]
pub enum DownloadUrl {
    /// A fixed URL.
    Fixed(String),
    /// An environment variable holding the URL.
    Env(String),
}

impl DownloadUrl {
    /// Its cache key: the URL, or `env:<var>`.
    pub open spec fn cache_key_view(&self) -> Seq<char> {
        match self {
            DownloadUrl::Fixed(url) => url@,
            DownloadUrl::Env(var) => "env:"@ + var@,
        }
    }

    /// Renders its cache key.
    pub fn cache_key(&self) -> (r: String)
        ensures
            r@ == self.cache_key_view(),
    {
        match self {
            DownloadUrl::Fixed(url) => url.clone(),
            DownloadUrl::Env(var) => {
                let mut r = owned("env:");
                r.append(var.as_str());
                r
            },
        }
    }

    /// The URL: the fixed one, or the variable's value (`env_value`), which
    /// must be set.
    pub fn resolve(&self, env_value: Option<String>) -> (r: Result<String, BinaryProviderError>)
        ensures
            self matches DownloadUrl::Fixed(url) ==> r == Ok::<String, BinaryProviderError>(*url),
            self matches DownloadUrl::Env(var) ==> match env_value {
                Some(v) => r == Ok::<String, BinaryProviderError>(v),
                None => r == Err::<String, BinaryProviderError>(
                    BinaryProviderError::MissingDownloadUrl { env_var: *var },
                ),
            },
    {
        match self {
            DownloadUrl::Fixed(url) => Ok(url.clone()),
            DownloadUrl::Env(var) => match env_value {
                Some(v) => Ok(v),
                None => Err(BinaryProviderError::MissingDownloadUrl { env_var: var.clone() }),
            },
        }
    }
}

/// The expected checksum of a download.
#[derive(Debug, PartialEq, Eq)]
pub enum DownloadChecksum {
    /// A fixed SHA-256 checksum.
    Fixed(String),
    /// An environment variable holding the checksum.
    Env(String),
}

impl DownloadChecksum {
    /// Its cache key: the checksum in lower case, or `env:<var>`.
    pub open spec fn cache_key_view(&self) -> Seq<char> {
        match self {
            DownloadChecksum::Fixed(c) => ascii_lowercase(c@),
            DownloadChecksum::Env(var) => "env:"@ + var@,
        }
    }

    /// Renders its cache key.
    pub fn cache_key(&self) -> (r: String)
        ensures
            r@ == self.cache_key_view(),
    {
        match self {
            DownloadChecksum::Fixed(c) => to_ascii_lowercase(c.as_str()),
            DownloadChecksum::Env(var) => {
                let mut r = owned("env:");
                r.append(var.as_str());
                r
            },
        }
    }

    /// The expected checksum in lower case: the fixed one, or the
    /// variable's value (`env_value`) when set.
    pub fn resolve(&self, env_value: Option<String>) -> (r: Option<String>)
        ensures
            self matches DownloadChecksum::Fixed(c) ==> (r matches Some(x) && x@ == ascii_lowercase(c@)),
            self matches DownloadChecksum::Env(_) ==> match env_value {
                Some(v) => r matches Some(x) && x@ == ascii_lowercase(v@),
                None => r is None,
            },
    {
        match self {
            DownloadChecksum::Fixed(c) => Some(to_ascii_lowercase(c.as_str())),
            DownloadChecksum::Env(_) => match env_value {
                Some(v) => Some(to_ascii_lowercase(v.as_str())),
                None => None,
            },
        }
    }
}

/// A provider downloading the executable into a local cache.
#[derive(Debug, PartialEq, Eq)]
pub struct DownloadBinaryProvider {
    /// Download source.
    pub url: DownloadUrl,
    /// Expected SHA-256 checksum, if any.
    pub sha256: Option<DownloadChecksum>,
    /// Cache directory; `target/.tf-binaries` in the process directory when
    /// unset.
    pub cache_dir: Option<String>,
    /// Cache key of the preparation step applied to the download, if any.
    pub processor: Option<String>,
}

impl DownloadBinaryProvider {
    /// A provider downloading from a fixed URL, unchecked and unprocessed.
    pub fn from_url(url: String) -> (r: Self)
        ensures
            r.url == DownloadUrl::Fixed(url),
            r.sha256 is None,
            r.cache_dir is None,
            r.processor is None,
    {
        DownloadBinaryProvider { url: DownloadUrl::Fixed(url), sha256: None, cache_dir: None, processor: None }
    }

    /// Applies the preparation step identified by `processor_key` to the
    /// download.
    pub fn with_processor(self, processor_key: String) -> (r: Self)
        ensures
            r == (DownloadBinaryProvider { processor: Some(processor_key), ..self }),
    {
        DownloadBinaryProvider { processor: Some(processor_key), ..self }
    }

    /// Its display name.
    pub fn display(&self) -> (r: String)
        ensures
            r@ == "download"@,
    {
        owned("download")
    }

    /// Its cache key: `download:<url>:<checksum>:<processor>:<cache dir>`.
    pub fn cache_key(&self) -> (r: String)
        ensures
            r@ == "download:"@ + self.url.cache_key_view() + ":"@ + match self.sha256 {
                Some(c) => c.cache_key_view(),
                None => Seq::<char>::empty(),
            } + ":"@ + optional_path(self.processor) + ":"@ + optional_path(self.cache_dir),
    {
        let mut r = owned("download:");
        r.append(self.url.cache_key().as_str());
        r.append(":");
        match &self.sha256 {
            Some(c) => r.append(c.cache_key().as_str()),
            None => {},
        }
        r.append(":");
        r.append(optional_path_display(&self.processor).as_str());
        r.append(":");
        r.append(optional_path_display(&self.cache_dir).as_str());
        r
    }

    /// The cache directory: the configured one, else
    /// `<cwd>/target/.tf-binaries` with `cwd` the process directory (`.`
    /// when unknown).
    pub fn cache_dir_in(&self, cwd: Option<String>) -> (r: String)
        ensures
            self.cache_dir matches Some(d) ==> r == d,
            self.cache_dir is None ==> r@ == path_join(
                path_join(
                    match cwd {
                        Some(c) => c@,
                        None => "."@,
                    },
                    "target"@,
                ),
                ".tf-binaries"@,
            ),
    {
        match &self.cache_dir {
            Some(d) => d.clone(),
            None => {
                let base = match cwd {
                    Some(c) => c,
                    None => owned("."),
                };
                let target = join_paths(base.as_str(), "target");
                join_paths(target.as_str(), ".tf-binaries")
            },
        }
    }

    /// The cache file name of a download whose request hashes to `hash`.
    pub fn download_file_name(hash: u64) -> (r: String)
        ensures
            r@ == "binary-"@ + hex(hash as nat),
    {
        let mut r = owned("binary-");
        r.append(u64_to_hex(hash).as_str());
        r
    }

    /// The preparation step's name in errors: its key, or `identity`.
    pub fn processor_label(&self) -> (r: String)
        ensures
            self.processor matches Some(k) ==> r == k,
            self.processor is None ==> r@ == "identity"@,
    {
        match &self.processor {
            Some(k) => k.clone(),
            None => owned("identity"),
        }
    }

    /// Checks downloaded bytes against the expected checksum, if any.
    pub fn verify_checksum(path: &str, expected: Option<String>, bytes: &[u8]) -> (r: Result<(), BinaryProviderError>)
        ensures
            expected is None ==> r is Ok,
            expected matches Some(e) ==> if e@ == checksum_hex(bytes@) {
                r is Ok
            } else {
                r matches Err(BinaryProviderError::ChecksumMismatch { path: p, expected: x, actual })
                    && p@ == path@ && x == e && actual@ == checksum_hex(bytes@)
            },
    {
        let expected = match expected {
            Some(e) => e,
            None => {
                return Ok(());
            },
        };
        let actual = encode_sha256(bytes);
        if str_eq(expected.as_str(), actual.as_str()) {
            return Ok(());
        }
        Err(BinaryProviderError::ChecksumMismatch { path: owned(path), expected, actual })
    }
}

/// What a fallback provider does with the outcome of one of its providers.
#[derive(Debug, PartialEq, Eq)]
pub enum FallbackStep {
    /// The provider resolved the binary.
    Resolved(String),
    /// The provider found nothing; try the next one.
    TryNext,
    /// The provider failed; stop.
    Fail(BinaryProviderError),
}

/// A provider trying several providers in order.
#[derive(Debug, PartialEq, Eq)]
pub struct FallbackBinaryProvider<P> {
    /// Providers, tried from first to last.
    pub providers: Vec<P>,
}

impl<P> FallbackBinaryProvider<P> {
    /// A fallback over `providers`.
    pub fn new(providers: Vec<P>) -> (r: Self)
        ensures
            r.providers == providers,
    {
        FallbackBinaryProvider { providers }
    }

    /// The step after a provider's resolution: a path ends the search, a
    /// "not found" moves on, any other error ends it.
    pub fn step(outcome: Result<String, BinaryProviderError>) -> (r: FallbackStep)
        ensures
            outcome matches Ok(p) ==> r == FallbackStep::Resolved(p),
            outcome matches Err(BinaryProviderError::NotFound { .. }) ==> r == FallbackStep::TryNext,
            outcome matches Err(e) ==> (!(e is NotFound) ==> r == FallbackStep::Fail(e)),
    {
        match outcome {
            Ok(p) => FallbackStep::Resolved(p),
            Err(BinaryProviderError::NotFound { .. }) => FallbackStep::TryNext,
            Err(e) => FallbackStep::Fail(e),
        }
    }

    /// Its display name: the providers' names joined by commas.
    pub fn display_of(displays: &Vec<String>) -> (r: String)
        ensures
            r@ == join(views(displays@), ","@),
    {
        join_strings(displays, ",")
    }

    /// Its cache key: the providers' keys joined by commas.
    pub fn cache_key_of(keys: &Vec<String>) -> (r: String)
        ensures
            r@ == join(views(keys@), ","@),
    {
        join_strings(keys, ",")
    }
}

/// Milliseconds between attempts to take a provider lock.
pub const LOCK_RETRY_DELAY_MS: u64 = 200;

/// Milliseconds after which waiting for a provider lock fails.
pub const LOCK_TIMEOUT_MS: u64 = 600000;

/// The outcome of one attempt to create a provider's lock file.
#[derive(Debug, PartialEq, Eq)]
pub enum LockAttempt {
    /// The lock file was created: the lock is held.
    Created,
    /// The lock file exists: another process holds the lock.
    AlreadyExists,
    /// Creating the lock file failed otherwise.
    Failed(String),
}

/// What to do after an attempt to take a provider lock.
#[derive(Debug, PartialEq, Eq)]
pub enum LockStep {
    /// The lock is held.
    Acquired,
    /// Wait this many milliseconds and try again.
    RetryAfterMillis(u64),
    /// Give up.
    Fail(BinaryProviderError),
}

/// The lock protocol: a created file holds the lock; an existing one is
/// waited on, retrying every 200 ms until 10 minutes have passed since the
/// first attempt; any other failure ends the attempt.
pub fn lock_step(attempt: LockAttempt, elapsed_ms: u64, path: &str) -> (r: LockStep)
    ensures
        attempt == LockAttempt::Created ==> r == LockStep::Acquired,
        attempt == LockAttempt::AlreadyExists && elapsed_ms >= LOCK_TIMEOUT_MS ==> (r matches LockStep::Fail(
            BinaryProviderError::LockTimeout { path: p },
        ) && p@ == path@),
        attempt == LockAttempt::AlreadyExists && elapsed_ms < LOCK_TIMEOUT_MS ==> r == LockStep::RetryAfterMillis(
            LOCK_RETRY_DELAY_MS,
        ),
        attempt matches LockAttempt::Failed(source) ==> (r matches LockStep::Fail(
            BinaryProviderError::Io { path: p, source: s },
        ) && p@ == path@ && s == source),
{
    match attempt {
        LockAttempt::Created => LockStep::Acquired,
        LockAttempt::AlreadyExists => {
            if elapsed_ms >= LOCK_TIMEOUT_MS {
                LockStep::Fail(BinaryProviderError::LockTimeout { path: owned(path) })
            } else {
                LockStep::RetryAfterMillis(LOCK_RETRY_DELAY_MS)
            }
        },
        LockAttempt::Failed(source) => LockStep::Fail(BinaryProviderError::Io { path: owned(path), source }),
    }
}

/// The per-process cache of resolved binaries, keyed by provider cache key.
#[derive(Debug, PartialEq, Eq)]
pub struct BinaryCache {
    entries: Vec<(String, String)>,
}

impl View for BinaryCache {
    type V = Map<Seq<char>, Seq<char>>;

    /// Resolved paths by cache key.
    closed spec fn view(&self) -> Map<Seq<char>, Seq<char>> {
        Map::new(
            |k: Seq<char>| exists|i: int| 0 <= i < self.entries@.len() && (#[trigger] self.entries@[i]).0@ == k,
            |k: Seq<char>|
                self.entries@[choose|i: int| 0 <= i < self.entries@.len() && (#[trigger] self.entries@[i]).0@ == k].1@,
        )
    }
}

impl BinaryCache {
    /// No key appears twice.
    pub closed spec fn wf(&self) -> bool {
        forall|i: int, j: int|
            0 <= i < j < self.entries@.len() ==> (#[trigger] self.entries@[i]).0@ != (#[trigger] self.entries@[j]).0@
    }

    /// An empty cache.
    pub fn new() -> (r: Self)
        ensures
            r.wf(),
            r@ == Map::<Seq<char>, Seq<char>>::empty(),
    {
        let r = BinaryCache { entries: Vec::new() };
        assert(r@ =~= Map::<Seq<char>, Seq<char>>::empty());
        r
    }

    fn position(&self, key: &str) -> (r: Option<usize>)
        requires
            self.wf(),
        ensures
            r is Some <==> self@.contains_key(key@),
            r matches Some(i) ==> i < self.entries@.len() && self.entries@[i as int].0@ == key@
                && self@[key@] == self.entries@[i as int].1@,
    {
        let mut i: usize = 0;
        while i < self.entries.len()
            invariant
                i <= self.entries.len(),
                self.wf(),
                forall|j: int| 0 <= j < i ==> (#[trigger] self.entries@[j]).0@ != key@,
            decreases self.entries.len() - i,
        {
            if str_eq(self.entries[i].0.as_str(), key) {
                proof {
                    assert(self@.contains_key(key@));
                    let c = choose|m: int| 0 <= m < self.entries@.len() && (#[trigger] self.entries@[m]).0@ == key@;
                    if c != i {
                        if c < i {
                            assert(self.entries@[c].0@ != key@);
                        } else {
                            assert(self.entries@[i as int].0@ != self.entries@[c].0@);
                        }
                    }
                }
                return Some(i);
            }
            i = i + 1;
        }
        None
    }

    /// The path cached for `key`.
    pub fn get(&self, key: &str) -> (r: Option<String>)
        requires
            self.wf(),
        ensures
            r is Some <==> self@.contains_key(key@),
            r matches Some(p) ==> p@ == self@[key@],
    {
        match self.position(key) {
            Some(i) => Some(self.entries[i].1.clone()),
            None => None,
        }
    }

    /// Caches `path` for `key`, replacing an earlier entry.
    pub fn insert(&mut self, key: String, path: String)
        requires
            old(self).wf(),
        ensures
            final(self).wf(),
            final(self)@ == old(self)@.insert(key@, path@),
    {
        let ghost before = self@;
        match self.position(key.as_str()) {
            Some(i) => {
                let ghost old_entries = self.entries@;
                crate::k8s::forwarding::replace_at(&mut self.entries, i, (key, path));
                proof {
                    assert forall|a: int, b: int|
                        0 <= a < b < self.entries@.len() implies (#[trigger] self.entries@[a]).0@
                        != (#[trigger] self.entries@[b]).0@ by {
                        assert(old_entries[a].0@ != old_entries[b].0@);
                    }
                    assert forall|k: Seq<char>| #[trigger] self@.contains_key(k) <==> before.insert(key@, path@).contains_key(k) by {
                        if self@.contains_key(k) {
                            let m = choose|m: int| 0 <= m < self.entries@.len() && (#[trigger] self.entries@[m]).0@ == k;
                            if m != i {
                                assert(old_entries[m].0@ == k);
                            }
                        }
                        if before.contains_key(k) && k != key@ {
                            let m = choose|m: int| 0 <= m < old_entries.len() && (#[trigger] old_entries[m]).0@ == k;
                            assert(self.entries@[m].0@ == k);
                        }
                        if k == key@ {
                            assert(self.entries@[i as int].0@ == k);
                        }
                    }
                    assert forall|k: Seq<char>| #[trigger] self@.contains_key(k) implies self@[k] == before.insert(key@, path@)[k] by {
                        let m = choose|m: int| 0 <= m < self.entries@.len() && (#[trigger] self.entries@[m]).0@ == k;
                        if k == key@ {
                            if m != i {
                                assert(self.entries@[i as int].0@ == k);
                                if m < i {
                                    assert(self.entries@[m].0@ != self.entries@[i as int].0@);
                                } else {
                                    assert(self.entries@[i as int].0@ != self.entries@[m].0@);
                                }
                            }
                        } else {
                            assert(m != i);
                            assert(old_entries[m].0@ == k);
                            let m0 = choose|m0: int| 0 <= m0 < old_entries.len() && (#[trigger] old_entries[m0]).0@ == k;
                            if m0 != m {
                                if m0 < m {
                                    assert(old_entries[m0].0@ != old_entries[m].0@);
                                } else {
                                    assert(old_entries[m].0@ != old_entries[m0].0@);
                                }
                            }
                        }
                    }
                    assert(self@ =~= before.insert(key@, path@));
                }
            },
            None => {
                let ghost old_entries = self.entries@;
                self.entries.push((key, path));
                proof {
                    let n = old_entries.len() as int;
                    assert forall|a: int, b: int|
                        0 <= a < b < self.entries@.len() implies (#[trigger] self.entries@[a]).0@
                        != (#[trigger] self.entries@[b]).0@ by {
                        if b < n {
                            assert(old_entries[a].0@ != old_entries[b].0@);
                        } else {
                            assert(old_entries[a].0@ != key@);
                        }
                    }
                    assert forall|k: Seq<char>| #[trigger] self@.contains_key(k) <==> before.insert(key@, path@).contains_key(k) by {
                        if self@.contains_key(k) {
                            let m = choose|m: int| 0 <= m < self.entries@.len() && (#[trigger] self.entries@[m]).0@ == k;
                            if m < n {
                                assert(old_entries[m].0@ == k);
                            }
                        }
                        if before.contains_key(k) {
                            let m = choose|m: int| 0 <= m < old_entries.len() && (#[trigger] old_entries[m]).0@ == k;
                            assert(self.entries@[m].0@ == k);
                        }
                        if k == key@ {
                            assert(self.entries@[n].0@ == k);
                        }
                    }
                    assert forall|k: Seq<char>| #[trigger] self@.contains_key(k) implies self@[k] == before.insert(key@, path@)[k] by {
                        let m = choose|m: int| 0 <= m < self.entries@.len() && (#[trigger] self.entries@[m]).0@ == k;
                        if k == key@ {
                            if m < n {
                                assert(old_entries[m].0@ != key@);
                            }
                        } else {
                            assert(m < n);
                            let m0 = choose|m0: int| 0 <= m0 < old_entries.len() && (#[trigger] old_entries[m0]).0@ == k;
                            if m0 != m {
                                if m0 < m {
                                    assert(old_entries[m0].0@ != old_entries[m].0@);
                                } else {
                                    assert(old_entries[m].0@ != old_entries[m0].0@);
                                }
                            }
                        }
                    }
                    assert(self@ =~= before.insert(key@, path@));
                }
            },
        }
    }

    /// Resolves under `key` through the cache: a path cached for `key` is
    /// returned and `attempt` is not run; otherwise `attempt` runs, and a
    /// path it resolves is cached and returned while a failure is returned
    /// and not cached.
    pub fn resolve_through<F: FnOnce() -> Result<Option<String>, BinaryProviderError>>(
        &mut self,
        key: String,
        display: String,
        attempt: F,
    ) -> (r: Result<String, BinaryProviderError>)
        requires
            old(self).wf(),
            attempt.requires(()),
        ensures
            final(self).wf(),
            old(self)@.contains_key(key@) ==> (r matches Ok(p) && p@ == old(self)@[key@]) && final(self)@ == old(
                self,
            )@,
            !old(self)@.contains_key(key@) ==> exists|a: Result<Option<String>, BinaryProviderError>|
                attempt.ensures((), a) && r == resolution_of(a, display) && final(self)@ == cache_after(
                    old(self)@,
                    key@,
                    r,
                ),
    {
        if let Some(path) = self.get(key.as_str()) {
            return Ok(path);
        }
        let outcome = resolve_uncached(attempt(), display);
        self.record_resolution(key, outcome)
    }

    /// Completes a resolution that missed the cache: a resolved path is
    /// cached under `key` and handed back, a failure is handed back and
    /// nothing is cached.
    pub fn record_resolution(&mut self, key: String, outcome: Result<String, BinaryProviderError>) -> (r: Result<String, BinaryProviderError>)
        requires
            old(self).wf(),
        ensures
            final(self).wf(),
            r == outcome,
            outcome matches Ok(p) ==> final(self)@ == old(self)@.insert(key@, p@),
            outcome is Err ==> final(self)@ == old(self)@,
            final(self)@ == cache_after(old(self)@, key@, outcome),
    {
        match outcome {
            Ok(p) => {
                self.insert(key, p.clone());
                Ok(p)
            },
            Err(e) => Err(e),
        }
    }
}

/// What the cache holds after a resolution under `key` ended in
/// `outcome`: a resolved path is cached, a failure leaves the cache as it
/// was.
pub open spec fn cache_after(cache: Map<Seq<char>, Seq<char>>, key: Seq<char>, outcome: Result<String, BinaryProviderError>) -> Map<Seq<char>, Seq<char>> {
    match outcome {
        Ok(p) => cache.insert(key, p@),
        Err(_) => cache,
    }
}

/// Once a resolution under a key has succeeded, every later resolution
/// under that key finds its path cached (and resolves nothing); a failed
/// resolution caches nothing, so the next one tries again; other keys keep
/// what they had.
pub proof fn lemma_successful_resolutions_are_reused(
    cache: Map<Seq<char>, Seq<char>>,
    key: Seq<char>,
    outcome: Result<String, BinaryProviderError>,
    other: Seq<char>,
)
    ensures
        outcome matches Ok(p) ==> cache_after(cache, key, outcome).contains_key(key) && cache_after(cache, key, outcome)[key]
            == p@,
        outcome is Err ==> cache_after(cache, key, outcome) == cache,
        other != key ==> cache_after(cache, key, outcome).contains_key(other) == cache.contains_key(other),
        other != key && cache.contains_key(other) ==> cache_after(cache, key, outcome)[other] == cache[other],
{
}

} // verus!
