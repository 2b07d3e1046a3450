//! Installing, repairing and removing the privileged helper.
//!
//! Privileges are only obtained through `osascript ... with administrator
//! privileges`; the script is a fixed template whose path arguments are
//! checked and single-quoted; the bundled helper must match the SHA-256
//! recorded at build time; a failed install rolls back its completed steps.
use vstd::prelude::*;

use crate::digest::{ascii_lower, hex_lower, hex_of, is_sha256_hex, is_sha256_text, sha256, sha256_digest, to_ascii_lower};
use crate::domain::{AppError, ErrorCode};
use crate::platform::{arg_views, osascript_program, CommandCall, CommandRunner};
use crate::text::{contains_char, contains_control, decimal, decimal_string, has_char, has_control, lemma_trimmed, str_eq, trim, trimmed,
    trimmed_of};

verus! {

pub open spec fn helper_label() -> Seq<char> {
    "com.zzzgydi.verge.helper"@
}

pub open spec fn helper_socket_path() -> Seq<char> {
    "/var/run/verge-helper.sock"@
}

pub open spec fn helper_binary_name() -> Seq<char> {
    "verge-helper"@
}

/// `PathBuf::join` of a relative component: a separator is added unless the
/// base is empty or already ends with one.
pub open spec fn join_path(base: Seq<char>, name: Seq<char>) -> Seq<char> {
    if base.len() == 0 {
        name
    } else if base.last() == '/' {
        base + name
    } else {
        base + seq!['/'] + name
    }
}

pub fn join(base: &str, name: &str) -> (r: String)
    ensures
        r@ == join_path(base@, name@),
{
    let n = base.unicode_len();
    if n == 0 {
        String::from_str(name)
    } else if base.get_char(n - 1) == '/' {
        String::from_str(base).concat(name)
    } else {
        let r = String::from_str(base).concat("/").concat(name);
        proof {
            reveal_strlit("/");
        }
        assert(r@ =~= join_path(base@, name@));
        r
    }
}

/// Where the helper is installed. The system layout is used in production.
#[derive(Clone, Debug, PartialEq, Eq)]
pub struct HelperInstallLayout {
    /// `/Library/PrivilegedHelperTools`
    pub install_dir: String,
    /// `/Library/LaunchDaemons`
    pub daemons_dir: String,
}

pub open spec fn helper_path(layout: HelperInstallLayout) -> Seq<char> {
    join_path(layout.install_dir@, helper_binary_name())
}

pub open spec fn plist_path(layout: HelperInstallLayout) -> Seq<char> {
    join_path(layout.daemons_dir@, helper_label() + ".plist"@)
}

impl HelperInstallLayout {
    pub fn system() -> (l: Self)
        ensures
            l.install_dir@ == "/Library/PrivilegedHelperTools"@,
            l.daemons_dir@ == "/Library/LaunchDaemons"@,
    {
        HelperInstallLayout {
            install_dir: String::from_str("/Library/PrivilegedHelperTools"),
            daemons_dir: String::from_str("/Library/LaunchDaemons"),
        }
    }

    pub fn helper_binary(&self) -> (p: String)
        ensures
            p@ == helper_path(*self),
    {
        join(self.install_dir.as_str(), "verge-helper")
    }

    pub fn daemon_plist(&self) -> (p: String)
        ensures
            p@ == plist_path(*self),
    {
        let name = String::from_str("com.zzzgydi.verge.helper").concat(".plist");
        join(self.daemons_dir.as_str(), name.as_str())
    }
}

/// Where the bundled helper binary lies in the bundle's resources.
pub open spec fn bundled_binary(resources: Seq<char>) -> Seq<char> {
    join_path(join_path(resources, "helper"@), helper_binary_name())
}

/// Where the digest recorded at build time lies in the bundle's resources.
pub open spec fn bundled_digest(resources: Seq<char>) -> Seq<char> {
    join_path(join_path(resources, "helper"@), "verge-helper.sha256"@)
}

pub fn bundled_binary_path(resources: &str) -> (r: String)
    ensures
        r@ == bundled_binary(resources@),
{
    let dir = join(resources, "helper");
    join(dir.as_str(), "verge-helper")
}

pub fn bundled_digest_path(resources: &str) -> (r: String)
    ensures
        r@ == bundled_digest(resources@),
{
    let dir = join(resources, "helper");
    join(dir.as_str(), "verge-helper.sha256")
}

/// The bundled helper as found in the resources; `digest_text` is the
/// content of the digest file, of which surrounding white space is dropped.
pub fn bundled_helper(resources: &str, digest_text: &str) -> (r: HelperBundle)
    ensures
        r.binary@ == bundled_binary(resources@),
        trimmed_of(digest_text@, r.expected_sha256@),
{
    HelperBundle { binary: bundled_binary_path(resources), expected_sha256: trim(digest_text) }
}

/// The bundled helper binary and the SHA-256 recorded when it was built.
#[derive(Clone, Debug, PartialEq, Eq)]
pub struct HelperBundle {
    pub binary: String,
    pub expected_sha256: String,
}

/// A path that may stand in the privileged script: absolute, without control
/// characters and without single quotes (which are refused, not escaped).
pub open spec fn shell_safe(p: Seq<char>) -> bool {
    p.len() > 0 && p[0] == '/' && !has_control(p) && !has_char(p, '\'')
}

pub open spec fn quoted(p: Seq<char>) -> Seq<char> {
    seq!['\''] + p + seq!['\'']
}

pub open spec fn unsafe_path_message(p: Seq<char>, use_: Seq<char>) -> Seq<char> {
    "helper path '"@ + p + "' is not safe for the "@ + use_
}

/// Checks a path for the privileged script and wraps it in single quotes.
pub fn shell_quote(path: &str) -> (r: Result<String, AppError>)
    ensures
        r is Ok <==> shell_safe(path@),
        r matches Ok(q) ==> q@ == quoted(path@),
        r matches Err(e) ==> e.code == ErrorCode::InvalidInput && e.message@ == unsafe_path_message(
            path@,
            "privileged script"@,
        ),
{
    let n = path.unicode_len();
    if n == 0 || path.get_char(0) != '/' || contains_control(path) || contains_char(path, '\'') {
        let message = String::from_str("helper path '").concat(path).concat("' is not safe for the ").concat(
            "privileged script",
        );
        return Err(AppError::with_message(ErrorCode::InvalidInput, message));
    }
    let q = String::from_str("'").concat(path).concat("'");
    proof {
        reveal_strlit("'");
    }
    assert(q@ =~= quoted(path@));
    Ok(q)
}

pub open spec fn plist_safe(p: Seq<char>) -> bool {
    !has_control(p) && !has_char(p, '<') && !has_char(p, '>') && !has_char(p, '&')
}

/// Checks a path for the LaunchDaemon property list (no XML specials).
pub fn plist_value(path: &str) -> (r: Result<String, AppError>)
    ensures
        r is Ok <==> plist_safe(path@),
        r matches Ok(v) ==> v@ == path@,
        r matches Err(e) ==> e.code == ErrorCode::InvalidInput && e.message@ == unsafe_path_message(
            path@,
            "LaunchDaemon plist"@,
        ),
{
    if contains_control(path) || contains_char(path, '<') || contains_char(path, '>') || contains_char(path, '&') {
        let message = String::from_str("helper path '").concat(path).concat("' is not safe for the ").concat(
            "LaunchDaemon plist",
        );
        return Err(AppError::with_message(ErrorCode::InvalidInput, message));
    }
    Ok(String::from_str(path))
}

pub open spec fn plist_head() -> Seq<char> {
    "<?xml version=\"1.0\" encoding=\"UTF-8\"?>\n<!DOCTYPE plist PUBLIC \"-//Apple//DTD PLIST 1.0//EN\" \"http://www.apple.com/DTDs/PropertyList-1.0.dtd\">\n<plist version=\"1.0\">\n<dict>\n    <key>Label</key>\n    <string>"@
}

pub open spec fn plist_after_label() -> Seq<char> {
    "</string>\n    <key>ProgramArguments</key>\n    <array>\n        <string>"@
}

pub open spec fn plist_after_helper() -> Seq<char> {
    "</string>\n        <string>--socket</string>\n        <string>"@
}

pub open spec fn plist_after_socket() -> Seq<char> {
    "</string>\n        <string>--uid</string>\n        <string>"@
}

pub open spec fn plist_tail() -> Seq<char> {
    "</string>\n    </array>\n    <key>RunAtLoad</key>\n    <true/>\n    <key>KeepAlive</key>\n    <true/>\n    <key>StandardOutPath</key>\n    <string>/var/log/verge-helper.log</string>\n    <key>StandardErrorPath</key>\n    <string>/var/log/verge-helper.log</string>\n</dict>\n</plist>\n"@
}

/// The LaunchDaemon property list: a fixed template with the label, the
/// helper path, the socket path and the numeric uid.
pub open spec fn plist_text(helper: Seq<char>, socket: Seq<char>, uid: u32) -> Seq<char> {
    plist_head() + helper_label() + plist_after_label() + helper + plist_after_helper() + socket
        + plist_after_socket() + decimal(uid as nat) + plist_tail()
}

pub fn daemon_plist(helper: &str, socket: &str, uid: u32) -> (r: Result<String, AppError>)
    ensures
        r is Ok <==> plist_safe(helper@) && plist_safe(socket@),
        r matches Ok(t) ==> t@ == plist_text(helper@, socket@, uid),
        !plist_safe(helper@) ==> (r matches Err(e) && e.code == ErrorCode::InvalidInput && e.message@
            == unsafe_path_message(helper@, "LaunchDaemon plist"@)),
        plist_safe(helper@) && !plist_safe(socket@) ==> (r matches Err(e) && e.code
            == ErrorCode::InvalidInput && e.message@ == unsafe_path_message(socket@, "LaunchDaemon plist"@)),
{
    let helper = plist_value(helper)?;
    let socket = plist_value(socket)?;
    let t = String::from_str("<?xml version=\"1.0\" encoding=\"UTF-8\"?>\n<!DOCTYPE plist PUBLIC \"-//Apple//DTD PLIST 1.0//EN\" \"http://www.apple.com/DTDs/PropertyList-1.0.dtd\">\n<plist version=\"1.0\">\n<dict>\n    <key>Label</key>\n    <string>")
        .concat("com.zzzgydi.verge.helper")
        .concat("</string>\n    <key>ProgramArguments</key>\n    <array>\n        <string>")
        .concat(helper.as_str())
        .concat("</string>\n        <string>--socket</string>\n        <string>")
        .concat(socket.as_str())
        .concat("</string>\n        <string>--uid</string>\n        <string>")
        .concat(decimal_string(uid as u64).as_str())
        .concat("</string>\n    </array>\n    <key>RunAtLoad</key>\n    <true/>\n    <key>KeepAlive</key>\n    <true/>\n    <key>StandardOutPath</key>\n    <string>/var/log/verge-helper.log</string>\n    <key>StandardErrorPath</key>\n    <string>/var/log/verge-helper.log</string>\n</dict>\n</plist>\n");
    Ok(t)
}

/// The paths that the install script names, in the order it checks them.
pub open spec fn install_paths(layout: HelperInstallLayout, source: Seq<char>, staged: Seq<char>) -> Seq<Seq<char>> {
    seq![layout.install_dir@, source, helper_path(layout), staged, plist_path(layout)]
}

/// The install script: copy the helper and its property list into place, set
/// owner and modes, then bootstrap and start the daemon.
pub open spec fn install_script_text(layout: HelperInstallLayout, source: Seq<char>, staged: Seq<char>) -> Seq<char> {
    let h = quoted(helper_path(layout));
    let p = quoted(plist_path(layout));
    "/bin/mkdir -p "@ + quoted(layout.install_dir@) + " && "@ + "/usr/bin/ditto "@ + quoted(source)
        + " "@ + h + " && "@ + "/usr/sbin/chown root:wheel "@ + h + " && "@ + "/bin/chmod 755 "@ + h
        + " && "@ + "/usr/bin/ditto "@ + quoted(staged) + " "@ + p + " && "@
        + "/usr/sbin/chown root:wheel "@ + p + " && "@ + "/bin/chmod 644 "@ + p + " && "@
        + "/bin/launchctl bootstrap system "@ + p + " && "@ + "/bin/launchctl kickstart -k system/"@
        + helper_label()
}

/// The first path of `paths` that is not shell safe.
pub open spec fn first_unsafe(paths: Seq<Seq<char>>, i: int) -> bool {
    0 <= i < paths.len() && !shell_safe(paths[i]) && forall|j: int| 0 <= j < i ==> shell_safe(paths[j])
}

pub open spec fn all_safe(paths: Seq<Seq<char>>) -> bool {
    forall|j: int| 0 <= j < paths.len() ==> shell_safe(#[trigger] paths[j])
}

/// Refusal of the first unsafe path among `paths`.
pub open spec fn refuses_first_unsafe(paths: Seq<Seq<char>>, e: AppError) -> bool {
    e.code == ErrorCode::InvalidInput && exists|i: int| first_unsafe(paths, i) && e.message@ == unsafe_path_message(
        paths[i],
        "privileged script"@,
    )
}

fn install_script(layout: &HelperInstallLayout, source: &str, staged_plist: &str) -> (r: Result<String, AppError>)
    ensures
        r is Ok <==> all_safe(install_paths(*layout, source@, staged_plist@)),
        r matches Ok(s) ==> s@ == install_script_text(*layout, source@, staged_plist@),
        r matches Err(e) ==> refuses_first_unsafe(install_paths(*layout, source@, staged_plist@), e),
{
    let ghost paths = install_paths(*layout, source@, staged_plist@);
    let helper = layout.helper_binary();
    let plist = layout.daemon_plist();
    let d = match shell_quote(layout.install_dir.as_str()) {
        Ok(q) => q,
        Err(e) => {
            assert(first_unsafe(paths, 0));
            return Err(e);
        },
    };
    let s = match shell_quote(source) {
        Ok(q) => q,
        Err(e) => {
            assert(first_unsafe(paths, 1));
            return Err(e);
        },
    };
    let h = match shell_quote(helper.as_str()) {
        Ok(q) => q,
        Err(e) => {
            assert(first_unsafe(paths, 2));
            return Err(e);
        },
    };
    let st = match shell_quote(staged_plist) {
        Ok(q) => q,
        Err(e) => {
            assert(first_unsafe(paths, 3));
            return Err(e);
        },
    };
    let p = match shell_quote(plist.as_str()) {
        Ok(q) => q,
        Err(e) => {
            assert(first_unsafe(paths, 4));
            return Err(e);
        },
    };
    assert(all_safe(paths)) by {
        assert forall|j: int| 0 <= j < paths.len() implies shell_safe(#[trigger] paths[j]) by {
            if j == 0 {
            } else if j == 1 {
            } else if j == 2 {
            } else if j == 3 {
            } else {
            }
        }
    }
    let script = String::from_str("/bin/mkdir -p ").concat(d.as_str()).concat(" && ").concat(
        "/usr/bin/ditto ",
    ).concat(s.as_str()).concat(" ").concat(h.as_str()).concat(" && ").concat(
        "/usr/sbin/chown root:wheel ",
    ).concat(h.as_str()).concat(" && ").concat("/bin/chmod 755 ").concat(h.as_str()).concat(
        " && ",
    ).concat("/usr/bin/ditto ").concat(st.as_str()).concat(" ").concat(p.as_str()).concat(
        " && ",
    ).concat("/usr/sbin/chown root:wheel ").concat(p.as_str()).concat(" && ").concat(
        "/bin/chmod 644 ",
    ).concat(p.as_str()).concat(" && ").concat("/bin/launchctl bootstrap system ").concat(
        p.as_str(),
    ).concat(" && ").concat("/bin/launchctl kickstart -k system/").concat(
        "com.zzzgydi.verge.helper",
    );
    Ok(script)
}

pub open spec fn uninstall_paths(layout: HelperInstallLayout) -> Seq<Seq<char>> {
    seq![plist_path(layout), helper_path(layout)]
}

/// The removal script: stop the daemon (tolerating one that is not loaded),
/// then remove its property list and the helper.
pub open spec fn uninstall_script_text(layout: HelperInstallLayout) -> Seq<char> {
    "/bin/launchctl bootout system/"@ + helper_label() + " || true; /bin/rm -f "@ + quoted(
        plist_path(layout),
    ) + " && /bin/rm -f "@ + quoted(helper_path(layout))
}

fn uninstall_script(layout: &HelperInstallLayout) -> (r: Result<String, AppError>)
    ensures
        r is Ok <==> all_safe(uninstall_paths(*layout)),
        r matches Ok(s) ==> s@ == uninstall_script_text(*layout),
        r matches Err(e) ==> refuses_first_unsafe(uninstall_paths(*layout), e),
{
    let ghost paths = uninstall_paths(*layout);
    let plist = layout.daemon_plist();
    let helper = layout.helper_binary();
    let p = match shell_quote(plist.as_str()) {
        Ok(q) => q,
        Err(e) => {
            assert(first_unsafe(paths, 0));
            return Err(e);
        },
    };
    let h = match shell_quote(helper.as_str()) {
        Ok(q) => q,
        Err(e) => {
            assert(first_unsafe(paths, 1));
            return Err(e);
        },
    };
    assert(all_safe(paths)) by {
        assert forall|j: int| 0 <= j < paths.len() implies shell_safe(#[trigger] paths[j]) by {
            if j == 0 {
            } else {
            }
        }
    }
    let script = String::from_str("/bin/launchctl bootout system/").concat("com.zzzgydi.verge.helper").concat(
        " || true; /bin/rm -f ",
    ).concat(p.as_str()).concat(" && /bin/rm -f ").concat(h.as_str());
    Ok(script)
}

/// Backslashes and double quotes escaped for an AppleScript string.
pub open spec fn escape_applescript(s: Seq<char>) -> Seq<char>
    decreases s.len(),
{
    if s.len() == 0 {
        seq![]
    } else {
        let c = s.last();
        escape_applescript(s.drop_last()) + if c == '\\' {
            seq!['\\', '\\']
        } else if c == '"' {
            seq!['\\', '"']
        } else {
            seq![c]
        }
    }
}

pub open spec fn privileged_args(script: Seq<char>) -> Seq<Seq<char>> {
    seq!["-e"@, "do shell script \""@ + escape_applescript(script) + "\" with administrator privileges"@]
}

pub open spec fn single_line(script: Seq<char>) -> bool {
    !has_char(script, '\n') && !has_char(script, '\r')
}

/// `call` ran `script` with administrator privileges.
pub open spec fn privileged_call(call: CommandCall, script: Seq<char>) -> bool {
    call.program == osascript_program() && call.args == privileged_args(script)
}

fn escape_for_applescript(s: &str) -> (r: String)
    ensures
        r@ == escape_applescript(s@),
{
    let n = s.unicode_len();
    let mut out = String::new();
    let mut i: usize = 0;
    while i < n
        invariant
            n == s@.len(),
            i <= n,
            out@ == escape_applescript(s@.take(i as int)),
        decreases n - i,
    {
        let c = s.get_char(i);
        let piece = if c == '\\' {
            let p = String::from_str("\\\\");
            proof {
                reveal_strlit("\\\\");
            }
            assert(p@ =~= seq!['\\', '\\']);
            p
        } else if c == '"' {
            let p = String::from_str("\\\"");
            proof {
                reveal_strlit("\\\"");
            }
            assert(p@ =~= seq!['\\', '"']);
            p
        } else {
            crate::text::char_string(c)
        };
        out = out.concat(piece.as_str());
        assert(s@.take(i + 1).drop_last() =~= s@.take(i as int));
        assert(out@ =~= escape_applescript(s@.take(i + 1)));
        i = i + 1;
    }
    assert(s@.take(n as int) =~= s@);
    out
}

/// Runs a one-line shell script with administrator privileges through
/// `osascript`, after escaping it for an AppleScript string.
pub fn run_privileged_script<R: CommandRunner>(runner: &mut R, script: &str) -> (r: Result<(), AppError>)
    ensures
        !single_line(script@) ==> (r matches Err(e) && e.code == ErrorCode::InvalidInput && e.message@
            == "privileged helper script must be a single line"@ && final(runner).history() == old(
            runner,
        ).history()),
        single_line(script@) ==> ({
            let call = final(runner).history().last();
            &&& final(runner).history().len() == old(runner).history().len() + 1
            &&& final(runner).history().drop_last() == old(runner).history()
            &&& privileged_call(call, script@)
            &&& (r is Ok <==> call.result is Ok)
            &&& (call.result matches Err(e) ==> r == Err::<(), AppError>(e))
        }),
{
    if contains_char(script, '\n') || contains_char(script, '\r') {
        return Err(AppError::new(ErrorCode::InvalidInput, "privileged helper script must be a single line"));
    }
    let escaped = escape_for_applescript(script);
    let command = String::from_str("do shell script \"").concat(escaped.as_str()).concat(
        "\" with administrator privileges",
    );
    let mut args: Vec<String> = Vec::new();
    args.push(String::from_str("-e"));
    args.push(command);
    let result = runner.run("/usr/bin/osascript", args.as_slice());
    assert(arg_views(args@) =~= privileged_args(script@));
    match result {
        Ok(_) => Ok(()),
        Err(e) => Err(e),
    }
}

/// The bundled helper's recorded digest, trimmed and in lower case.
pub open spec fn normalized_digest(expected: Seq<char>, n: Seq<char>) -> bool {
    exists|t: Seq<char>| trimmed_of(expected, t) && n == ascii_lower(t)
}

/// The helper binary (`bytes`) matches the digest recorded in `bundle`.
pub open spec fn source_ok(bundle: HelperBundle, bytes: Seq<u8>) -> bool {
    exists|n: Seq<char>| normalized_digest(bundle.expected_sha256@, n) && is_sha256_text(n) && hex_of(sha256(bytes)) == n
}

/// Why the helper binary is refused: the recorded digest (trimmed and in
/// lower case) is not 64 hex digits, or it differs from the binary's digest.
pub open spec fn source_message(bundle: HelperBundle, bytes: Seq<u8>) -> Seq<char> {
    let n = ascii_lower(trimmed(bundle.expected_sha256@));
    if !is_sha256_text(n) {
        "bundled helper digest is malformed (expected 64 hex characters)"@
    } else {
        "bundled helper SHA-256 mismatch: expected "@ + n + ", got "@ + hex_of(sha256(bytes))
    }
}

/// Checks the bundled helper's bytes against the digest recorded at build
/// time; a malformed digest and a mismatch are both refused.
pub fn verify_bundle_source(bundle: &HelperBundle, bytes: &[u8]) -> (r: Result<(), AppError>)
    ensures
        r is Ok <==> source_ok(*bundle, bytes@),
        r matches Err(e) ==> e.code == ErrorCode::ValidationFailed && e.message@ == source_message(*bundle, bytes@),
{
    let trimmed = trim(bundle.expected_sha256.as_str());
    proof {
        lemma_trimmed(bundle.expected_sha256@, trimmed@);
    }
    let expected = to_ascii_lower(trimmed.as_str());
    assert(normalized_digest(bundle.expected_sha256@, expected@));
    proof {
        assert forall|n: Seq<char>| normalized_digest(bundle.expected_sha256@, n) implies n == expected@ by {
            let t = choose|t: Seq<char>| trimmed_of(bundle.expected_sha256@, t) && n == ascii_lower(t);
            crate::text::lemma_trimmed_unique(bundle.expected_sha256@, t, trimmed@);
        }
    }
    if !is_sha256_hex(expected.as_str()) {
        return Err(AppError::new(ErrorCode::ValidationFailed, "bundled helper digest is malformed (expected 64 hex characters)"));
    }
    let digest = sha256_digest(bytes);
    let actual = hex_lower(digest.as_slice());
    if !str_eq(actual.as_str(), expected.as_str()) {
        let message = String::from_str("bundled helper SHA-256 mismatch: expected ").concat(expected.as_str()).concat(
            ", got ",
        ).concat(actual.as_str());
        return Err(AppError::with_message(ErrorCode::ValidationFailed, message));
    }
    Ok(())
}

} // verus!

verus! {

proof fn lemma_single_line_concat(a: Seq<char>, b: Seq<char>)
    requires
        single_line(a),
        single_line(b),
    ensures
        single_line(a + b),
{
    assert forall|i: int| 0 <= i < (a + b).len() implies (a + b)[i] != '\n' && (a + b)[i] != '\r' by {
        if i < a.len() {
            assert((a + b)[i] == a[i]);
        } else {
            assert((a + b)[i] == b[i - a.len()]);
        }
    }
}

proof fn lemma_quoted_single_line(p: Seq<char>)
    requires
        shell_safe(p),
    ensures
        single_line(quoted(p)),
{
    assert(single_line(p)) by {
        assert forall|i: int| 0 <= i < p.len() implies p[i] != '\n' && p[i] != '\r' by {
            assert(!crate::text::is_control(p[i]));
        }
    }
    assert(single_line(seq!['\'']));
    lemma_single_line_concat(seq!['\''], p);
    lemma_single_line_concat(seq!['\''] + p, seq!['\'']);
}

proof fn lemma_literals_single_line()
    ensures
        single_line("/bin/mkdir -p "@),
        single_line(" && "@),
        single_line("/usr/bin/ditto "@),
        single_line(" "@),
        single_line("/usr/sbin/chown root:wheel "@),
        single_line("/bin/chmod 755 "@),
        single_line("/bin/chmod 644 "@),
        single_line("/bin/launchctl bootstrap system "@),
        single_line("/bin/launchctl kickstart -k system/"@),
        single_line(helper_label()),
        single_line("/bin/launchctl bootout system/"@),
        single_line(" || true; /bin/rm -f "@),
        single_line(" && /bin/rm -f "@),
{
    reveal_strlit("/bin/mkdir -p ");
    reveal_strlit(" && ");
    reveal_strlit("/usr/bin/ditto ");
    reveal_strlit(" ");
    reveal_strlit("/usr/sbin/chown root:wheel ");
    reveal_strlit("/bin/chmod 755 ");
    reveal_strlit("/bin/chmod 644 ");
    reveal_strlit("/bin/launchctl bootstrap system ");
    reveal_strlit("/bin/launchctl kickstart -k system/");
    reveal_strlit("com.zzzgydi.verge.helper");
    reveal_strlit("/bin/launchctl bootout system/");
    reveal_strlit(" || true; /bin/rm -f ");
    reveal_strlit(" && /bin/rm -f ");
}

proof fn lemma_uninstall_single_line(layout: HelperInstallLayout)
    requires
        all_safe(uninstall_paths(layout)),
    ensures
        single_line(uninstall_script_text(layout)),
{
    let paths = uninstall_paths(layout);
    assert(shell_safe(paths[0]) && shell_safe(paths[1]));
    lemma_literals_single_line();
    lemma_quoted_single_line(plist_path(layout));
    lemma_quoted_single_line(helper_path(layout));
    let a = "/bin/launchctl bootout system/"@ + helper_label();
    lemma_single_line_concat("/bin/launchctl bootout system/"@, helper_label());
    lemma_single_line_concat(a, " || true; /bin/rm -f "@);
    let b = a + " || true; /bin/rm -f "@;
    lemma_single_line_concat(b, quoted(plist_path(layout)));
    let c = b + quoted(plist_path(layout));
    lemma_single_line_concat(c, " && /bin/rm -f "@);
    lemma_single_line_concat(c + " && /bin/rm -f "@, quoted(helper_path(layout)));
}

proof fn lemma_install_single_line(layout: HelperInstallLayout, source: Seq<char>, staged: Seq<char>)
    requires
        all_safe(install_paths(layout, source, staged)),
    ensures
        single_line(install_script_text(layout, source, staged)),
{
    let paths = install_paths(layout, source, staged);
    assert(shell_safe(paths[0]) && shell_safe(paths[1]) && shell_safe(paths[2]) && shell_safe(paths[3])
        && shell_safe(paths[4]));
    lemma_literals_single_line();
    let d = quoted(layout.install_dir@);
    let s = quoted(source);
    let h = quoted(helper_path(layout));
    let st = quoted(staged);
    let p = quoted(plist_path(layout));
    lemma_quoted_single_line(layout.install_dir@);
    lemma_quoted_single_line(source);
    lemma_quoted_single_line(helper_path(layout));
    lemma_quoted_single_line(staged);
    lemma_quoted_single_line(plist_path(layout));
    let x0 = "/bin/mkdir -p "@;
    lemma_single_line_concat(x0, d);
    let x1 = x0 + d;
    lemma_single_line_concat(x1, " && "@);
    let x2 = x1 + " && "@;
    lemma_single_line_concat(x2, "/usr/bin/ditto "@);
    let x3 = x2 + "/usr/bin/ditto "@;
    lemma_single_line_concat(x3, s);
    let x4 = x3 + s;
    lemma_single_line_concat(x4, " "@);
    let x5 = x4 + " "@;
    lemma_single_line_concat(x5, h);
    let x6 = x5 + h;
    lemma_single_line_concat(x6, " && "@);
    let x7 = x6 + " && "@;
    lemma_single_line_concat(x7, "/usr/sbin/chown root:wheel "@);
    let x8 = x7 + "/usr/sbin/chown root:wheel "@;
    lemma_single_line_concat(x8, h);
    let x9 = x8 + h;
    lemma_single_line_concat(x9, " && "@);
    let x10 = x9 + " && "@;
    lemma_single_line_concat(x10, "/bin/chmod 755 "@);
    let x11 = x10 + "/bin/chmod 755 "@;
    lemma_single_line_concat(x11, h);
    let x12 = x11 + h;
    lemma_single_line_concat(x12, " && "@);
    let x13 = x12 + " && "@;
    lemma_single_line_concat(x13, "/usr/bin/ditto "@);
    let x14 = x13 + "/usr/bin/ditto "@;
    lemma_single_line_concat(x14, st);
    let x15 = x14 + st;
    lemma_single_line_concat(x15, " "@);
    let x16 = x15 + " "@;
    lemma_single_line_concat(x16, p);
    let x17 = x16 + p;
    lemma_single_line_concat(x17, " && "@);
    let x18 = x17 + " && "@;
    lemma_single_line_concat(x18, "/usr/sbin/chown root:wheel "@);
    let x19 = x18 + "/usr/sbin/chown root:wheel "@;
    lemma_single_line_concat(x19, p);
    let x20 = x19 + p;
    lemma_single_line_concat(x20, " && "@);
    let x21 = x20 + " && "@;
    lemma_single_line_concat(x21, "/bin/chmod 644 "@);
    let x22 = x21 + "/bin/chmod 644 "@;
    lemma_single_line_concat(x22, p);
    let x23 = x22 + p;
    lemma_single_line_concat(x23, " && "@);
    let x24 = x23 + " && "@;
    lemma_single_line_concat(x24, "/bin/launchctl bootstrap system "@);
    let x25 = x24 + "/bin/launchctl bootstrap system "@;
    lemma_single_line_concat(x25, p);
    let x26 = x25 + p;
    lemma_single_line_concat(x26, " && "@);
    let x27 = x26 + " && "@;
    lemma_single_line_concat(x27, "/bin/launchctl kickstart -k system/"@);
    let x28 = x27 + "/bin/launchctl kickstart -k system/"@;
    lemma_single_line_concat(x28, helper_label());
}

pub open spec fn absolute(p: Seq<char>) -> bool {
    p.len() > 0 && p[0] == '/'
}

fn require_absolute(name: &str, path: &str) -> (r: Result<(), AppError>)
    ensures
        r is Ok <==> absolute(path@),
        r matches Err(e) ==> e.code == ErrorCode::InvalidInput && e.message@ == "helper "@ + name@
            + " must be an absolute path"@,
{
    if path.unicode_len() == 0 || path.get_char(0) != '/' {
        let message = String::from_str("helper ").concat(name).concat(" must be an absolute path");
        return Err(AppError::with_message(ErrorCode::InvalidInput, message));
    }
    Ok(())
}

/// The text of an error: its message.
pub open spec fn error_text(e: AppError) -> Seq<char> {
    e.message@
}

/// The error of an install whose script failed with `cause`, after the
/// rollback returned `rollback`.
pub open spec fn install_failure(cause: AppError, rollback: Result<Seq<char>, AppError>, e: AppError) -> bool {
    &&& e.code == ErrorCode::PlatformFailed
    &&& match rollback {
        Ok(_) => e.message@ == "helper install failed: "@ + error_text(cause)
            + "; completed steps were rolled back"@,
        Err(r) => e.message@ == "helper install failed: "@ + error_text(cause) + "; rollback failed: "@
            + error_text(r),
    }
}

/// Installs, repairs and removes the helper; every privileged action goes
/// through the runner (`osascript` with administrator privileges).
pub struct MacHelperInstaller<R> {
    runner: R,
    layout: HelperInstallLayout,
    staging_dir: String,
    uid: u32,
}

impl<R: CommandRunner> MacHelperInstaller<R> {
    pub closed spec fn calls(&self) -> Seq<CommandCall> {
        self.runner.history()
    }

    pub closed spec fn layout_of(&self) -> HelperInstallLayout {
        self.layout
    }

    pub closed spec fn staging_of(&self) -> Seq<char> {
        self.staging_dir@
    }

    pub closed spec fn uid_of(&self) -> u32 {
        self.uid
    }

    pub fn runner(&self) -> (r: &R)
        ensures
            r.history() == self.calls(),
    {
        &self.runner
    }

    /// The three directories must be absolute paths.
    pub fn new(runner: R, layout: HelperInstallLayout, staging_dir: String, uid: u32) -> (r: Result<Self, AppError>)
        ensures
            r is Ok <==> (absolute(layout.install_dir@) && absolute(layout.daemons_dir@) && absolute(
                staging_dir@,
            )),
            r matches Ok(i) ==> i.calls() == runner.history() && i.layout_of() == layout
                && i.staging_of() == staging_dir@ && i.uid_of() == uid,
            r matches Err(e) ==> e.code == ErrorCode::InvalidInput,
    {
        require_absolute("install dir", layout.install_dir.as_str())?;
        require_absolute("launch daemons dir", layout.daemons_dir.as_str())?;
        require_absolute("staging dir", staging_dir.as_str())?;
        Ok(MacHelperInstaller { runner, layout, staging_dir, uid })
    }

    /// Where the LaunchDaemon property list is staged before it is copied.
    pub fn staged_plist_path(&self) -> (p: String)
        ensures
            p@ == join_path(self.staging_of(), helper_label() + ".plist"@),
    {
        let name = String::from_str("com.zzzgydi.verge.helper").concat(".plist");
        join(self.staging_dir.as_str(), name.as_str())
    }

    /// The LaunchDaemon property list to stage.
    pub fn daemon_plist_content(&self) -> (r: Result<String, AppError>)
        ensures
            r is Ok <==> plist_safe(helper_path(self.layout_of())) && plist_safe(helper_socket_path()),
            r matches Ok(t) ==> t@ == plist_text(helper_path(self.layout_of()), helper_socket_path(), self.uid_of()),
            r matches Err(e) ==> e.code == ErrorCode::InvalidInput,
    {
        let helper = self.layout.helper_binary();
        daemon_plist(helper.as_str(), "/var/run/verge-helper.sock", self.uid)
    }

    /// Install or repair: check the bundled binary (`binary` holds its bytes)
    /// against its recorded digest, remove leftovers (best effort), then run
    /// the install script with the property list staged at `staged_plist`.
    /// When the install script fails, the removal script rolls it back.
    pub fn install(&mut self, bundle: &HelperBundle, binary: &[u8], staged_plist: &str) -> (r: Result<(), AppError>)
        ensures
            final(self).layout_of() == old(self).layout_of(),
            final(self).staging_of() == old(self).staging_of(),
            final(self).uid_of() == old(self).uid_of(),
            !source_ok(*bundle, binary@) ==> (r matches Err(e) && e.code == ErrorCode::ValidationFailed
                && e.message@ == source_message(*bundle, binary@) && final(self).calls() == old(self).calls()),
            source_ok(*bundle, binary@) && !all_safe(uninstall_paths(old(self).layout_of())) ==> (r matches Err(e)
                && refuses_first_unsafe(uninstall_paths(old(self).layout_of()), e) && final(self).calls()
                == old(self).calls()),
            source_ok(*bundle, binary@) && all_safe(uninstall_paths(old(self).layout_of())) ==> ({
                let n = old(self).calls().len() as int;
                let calls = final(self).calls();
                let cleanup = uninstall_script_text(old(self).layout_of());
                let script = install_script_text(old(self).layout_of(), bundle.binary@, staged_plist@);
                &&& calls.len() > n
                &&& calls.subrange(0, n) == old(self).calls()
                &&& privileged_call(calls[n], cleanup)
                &&& if !all_safe(install_paths(old(self).layout_of(), bundle.binary@, staged_plist@)) {
                    &&& calls.len() == n + 1
                    &&& r matches Err(e) && refuses_first_unsafe(
                        install_paths(old(self).layout_of(), bundle.binary@, staged_plist@),
                        e,
                    )
                } else {
                    &&& calls.len() >= n + 2
                    &&& privileged_call(calls[n + 1], script)
                    &&& match calls[n + 1].result {
                        Ok(_) => calls.len() == n + 2 && r is Ok,
                        Err(cause) => {
                            &&& calls.len() == n + 3
                            &&& privileged_call(calls[n + 2], cleanup)
                            &&& r matches Err(e) && install_failure(cause, calls[n + 2].result, e)
                        },
                    }
                }
            }),
    {
        if let Err(e) = verify_bundle_source(bundle, binary) {
            return Err(e);
        }
        let ghost h0 = self.runner.history();
        let cleanup = uninstall_script(&self.layout)?;
        proof {
            lemma_uninstall_single_line(self.layout);
        }
        let _ = run_privileged_script(&mut self.runner, cleanup.as_str());
        let ghost h1 = self.runner.history();
        assert(h1.subrange(0, h0.len() as int) =~= h0);
        let script = match install_script(&self.layout, bundle.binary.as_str(), staged_plist) {
            Ok(s) => s,
            Err(e) => {
                return Err(e);
            },
        };
        proof {
            lemma_install_single_line(self.layout, bundle.binary@, staged_plist@);
        }
        let outcome = run_privileged_script(&mut self.runner, script.as_str());
        let ghost h2 = self.runner.history();
        assert(h2.subrange(0, h0.len() as int) =~= h0);
        assert(h2[h0.len() as int] == h1[h0.len() as int]);
        match outcome {
            Ok(()) => Ok(()),
            Err(cause) => {
                let rollback = run_privileged_script(&mut self.runner, cleanup.as_str());
                let ghost h3 = self.runner.history();
                assert(h3.subrange(0, h0.len() as int) =~= h0);
                assert(h3[h0.len() as int] == h1[h0.len() as int]);
                assert(h3[h0.len() as int + 1] == h2[h0.len() as int + 1]);
                match rollback {
                    Ok(()) => {
                        let message = String::from_str("helper install failed: ").concat(cause.message.as_str()).concat(
                            "; completed steps were rolled back",
                        );
                        Err(AppError::with_message(ErrorCode::PlatformFailed, message))
                    },
                    Err(failure) => {
                        let message = String::from_str("helper install failed: ").concat(cause.message.as_str()).concat(
                            "; rollback failed: ",
                        ).concat(failure.message.as_str());
                        Err(AppError::with_message(ErrorCode::PlatformFailed, message))
                    },
                }
            },
        }
    }

    /// Removal: stop the daemon and delete its property list and the helper.
    pub fn uninstall(&mut self) -> (r: Result<(), AppError>)
        ensures
            final(self).layout_of() == old(self).layout_of(),
            final(self).staging_of() == old(self).staging_of(),
            final(self).uid_of() == old(self).uid_of(),
            !all_safe(uninstall_paths(old(self).layout_of())) ==> (r matches Err(e) && refuses_first_unsafe(
                uninstall_paths(old(self).layout_of()),
                e,
            ) && final(self).calls() == old(self).calls()),
            all_safe(uninstall_paths(old(self).layout_of())) ==> ({
                let call = final(self).calls().last();
                &&& final(self).calls().len() == old(self).calls().len() + 1
                &&& final(self).calls().drop_last() == old(self).calls()
                &&& privileged_call(call, uninstall_script_text(old(self).layout_of()))
                &&& (r is Ok <==> call.result is Ok)
                &&& (call.result matches Err(e) ==> r == Err::<(), AppError>(e))
            }),
    {
        let cleanup = uninstall_script(&self.layout)?;
        proof {
            lemma_uninstall_single_line(self.layout);
        }
        run_privileged_script(&mut self.runner, cleanup.as_str())
    }
}

} // verus!
