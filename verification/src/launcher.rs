//! The launcher written beside the binary.
//!
//! A bundle should run from anywhere, not only from a shell that already
//! knows where its pieces are. The launcher also sends the application's own
//! output to a log file: the terminal is the display here, so it cannot also
//! be the console.

use vstd::prelude::*;
use crate::bundle::{host_layout_for, Engine, HostLayout};
use crate::text::{contains_text, ends_with_text, has_prefix, has_suffix, lemma_contains_middle};

verus! {

/// The batch file that runs `exe` from the bundle's directory, one line per
/// command, each ended by CR LF.
pub open spec fn batch_launcher(exe: Seq<char>) -> Seq<char> {
    "@echo off\r\n"@ + "rem Runs the terminal application from this directory.\r\n"@
        + "setlocal\r\n"@ + "set \"here=%~dp0\"\r\n"@
        + "if \"%FLT_LOG_FILE%\"==\"\" set \"FLT_LOG_FILE=%here%app.log\"\r\n"@ + "\"%here%"@ + exe
        + "\" --assets-dir \"%here%data\\flutter_assets\" --icu-data-path \"%here%data\\icudtl.dat\" --log-file \"%FLT_LOG_FILE%\" %*\r\n"@
        + "exit /b %ERRORLEVEL%\r\n"@
}

/// The line that puts the bundle's `lib` directory on the library path, for
/// an engine that is a shared library. A framework needs none: SIP strips
/// `DYLD_*` from anything started through `/bin/sh`, and the binary carries
/// `@executable_path/lib` instead.
pub open spec fn library_path_line(engine: Engine) -> Seq<char> {
    match engine {
        Engine::Framework => Seq::empty(),
        Engine::SharedLibrary(_) => "LD_LIBRARY_PATH=\"$here/lib:$LD_LIBRARY_PATH\" \\\n"@,
    }
}

/// The shell script that runs `exe` from the bundle's directory.
pub open spec fn shell_launcher(library_path: Seq<char>, exe: Seq<char>) -> Seq<char> {
    "#!/bin/sh\n"@ + "# Runs the terminal application from this directory.\n"@
        + "here=$(cd \"$(dirname \"$0\")\" && pwd)\n"@ + library_path + "exec \"$here/"@ + exe
        + "\" \\\n"@ + "  --assets-dir \"$here/data/flutter_assets\" \\\n"@
        + "  --icu-data-path \"$here/data/icudtl.dat\" \\\n"@
        + "  --log-file \"${FLT_LOG_FILE:-$here/app.log}\" \"$@\"\n"@
}

/// The launcher for `layout`: a batch file where the launcher's name ends in
/// `.cmd`, and a shell script otherwise.
pub open spec fn launcher_text(layout: HostLayout) -> Seq<char> {
    if has_suffix(layout.launcher@, ".cmd"@) {
        batch_launcher(layout.executable@)
    } else {
        shell_launcher(library_path_line(layout.engine), layout.executable@)
    }
}

/// The launcher written beside the binary of a bundle laid out as `layout`.
pub fn launcher_script(layout: &HostLayout) -> (script: String)
    ensures
        script@ == launcher_text(*layout),
{
    let exe = layout.executable;
    let mut s = String::new();
    if ends_with_text(layout.launcher, ".cmd") {
        s.append("@echo off\r\n");
        s.append("rem Runs the terminal application from this directory.\r\n");
        s.append("setlocal\r\n");
        s.append("set \"here=%~dp0\"\r\n");
        s.append("if \"%FLT_LOG_FILE%\"==\"\" set \"FLT_LOG_FILE=%here%app.log\"\r\n");
        s.append("\"%here%");
        s.append(exe);
        s.append(
            "\" --assets-dir \"%here%data\\flutter_assets\" --icu-data-path \"%here%data\\icudtl.dat\" --log-file \"%FLT_LOG_FILE%\" %*\r\n",
        );
        s.append("exit /b %ERRORLEVEL%\r\n");
    } else {
        s.append("#!/bin/sh\n");
        s.append("# Runs the terminal application from this directory.\n");
        s.append("here=$(cd \"$(dirname \"$0\")\" && pwd)\n");
        match layout.engine {
            Engine::Framework => {
                assert(s@ + Seq::<char>::empty() =~= s@);
            },
            Engine::SharedLibrary(_) => {
                s.append("LD_LIBRARY_PATH=\"$here/lib:$LD_LIBRARY_PATH\" \\\n");
            },
        }
        s.append("exec \"$here/");
        s.append(exe);
        s.append("\" \\\n");
        s.append("  --assets-dir \"$here/data/flutter_assets\" \\\n");
        s.append("  --icu-data-path \"$here/data/icudtl.dat\" \\\n");
        s.append("  --log-file \"${FLT_LOG_FILE:-$here/app.log}\" \"$@\"\n");
    }
    s
}

/// Every line feed in `s` ends a CR LF pair.
pub open spec fn crlf_line_ends(s: Seq<char>) -> bool {
    forall|i: int| 0 <= i < s.len() && #[trigger] s[i] == '\n' ==> i > 0 && s[i - 1] == '\r'
}

/// Joining two texts whose line feeds end CR LF pairs, where the second does
/// not start with a line feed, keeps every line feed at the end of a pair.
proof fn lemma_crlf_concat(a: Seq<char>, b: Seq<char>)
    requires
        crlf_line_ends(a),
        crlf_line_ends(b),
        b.len() > 0 ==> b[0] != '\n',
    ensures
        crlf_line_ends(a + b),
{
    let s = a + b;
    assert forall|i: int| 0 <= i < s.len() && #[trigger] s[i] == '\n' implies i > 0 && s[i - 1]
        == '\r' by {
        if i < a.len() {
            assert(a[i] == '\n');
        } else {
            assert(b[i - a.len()] == '\n');
        }
    }
}

/// The launcher of a Windows bundle is a batch file, and those of Linux and
/// macOS bundles are shell scripts; only a shared-library engine puts the
/// bundle's `lib` directory on the library path.
pub proof fn lemma_launcher_kind(os: Seq<char>, arch: Seq<char>, layout: HostLayout)
    requires
        os == "linux"@ || os == "macos"@ || os == "windows"@,
        host_layout_for(os, arch, layout),
    ensures
        os == "windows"@ ==> launcher_text(layout) == batch_launcher("flt.exe"@),
        os == "linux"@ ==> launcher_text(layout) == shell_launcher(
            "LD_LIBRARY_PATH=\"$here/lib:$LD_LIBRARY_PATH\" \\\n"@,
            "flt"@,
        ),
        os == "macos"@ ==> launcher_text(layout) == shell_launcher(Seq::empty(), "flt"@),
{
    reveal_strlit("linux");
    reveal_strlit("macos");
    reveal_strlit("windows");
    reveal_strlit("run.cmd");
    reveal_strlit("run.sh");
    reveal_strlit(".cmd");
    assert("linux"@[0] != "macos"@[0]);
    assert("windows"@.len() != "macos"@.len());
    assert("windows"@.len() != "linux"@.len());
    assert("run.cmd"@.subrange(3, 7) =~= ".cmd"@);
    assert("run.sh"@.subrange(2, 6)[0] != ".cmd"@[0]);
}

/// A batch launcher ends every line with CR LF, as `cmd` expects, provided
/// the executable's name holds no line feed.
pub proof fn lemma_batch_launcher_crlf(exe: Seq<char>)
    requires
        forall|i: int| 0 <= i < exe.len() ==> exe[i] != '\n',
    ensures
        crlf_line_ends(batch_launcher(exe)),
{
    let l0 = "@echo off\r\n"@;
    let l1 = "rem Runs the terminal application from this directory.\r\n"@;
    let l2 = "setlocal\r\n"@;
    let l3 = "set \"here=%~dp0\"\r\n"@;
    let l4 = "if \"%FLT_LOG_FILE%\"==\"\" set \"FLT_LOG_FILE=%here%app.log\"\r\n"@;
    let l5 = "\"%here%"@;
    let l6 = "\" --assets-dir \"%here%data\\flutter_assets\" --icu-data-path \"%here%data\\icudtl.dat\" --log-file \"%FLT_LOG_FILE%\" %*\r\n"@;
    let l7 = "exit /b %ERRORLEVEL%\r\n"@;
    reveal_strlit("@echo off\r\n");
    reveal_strlit("rem Runs the terminal application from this directory.\r\n");
    reveal_strlit("setlocal\r\n");
    reveal_strlit("set \"here=%~dp0\"\r\n");
    reveal_strlit("if \"%FLT_LOG_FILE%\"==\"\" set \"FLT_LOG_FILE=%here%app.log\"\r\n");
    reveal_strlit("\"%here%");
    reveal_strlit(
        "\" --assets-dir \"%here%data\\flutter_assets\" --icu-data-path \"%here%data\\icudtl.dat\" --log-file \"%FLT_LOG_FILE%\" %*\r\n",
    );
    reveal_strlit("exit /b %ERRORLEVEL%\r\n");
    assert(crlf_line_ends(l0));
    assert(crlf_line_ends(l1));
    assert(crlf_line_ends(l2));
    assert(crlf_line_ends(l3));
    assert(crlf_line_ends(l4));
    assert(crlf_line_ends(l5));
    assert(crlf_line_ends(exe));
    assert(crlf_line_ends(l6));
    assert(crlf_line_ends(l7));
    lemma_crlf_concat(l0, l1);
    lemma_crlf_concat(l0 + l1, l2);
    lemma_crlf_concat(l0 + l1 + l2, l3);
    lemma_crlf_concat(l0 + l1 + l2 + l3, l4);
    lemma_crlf_concat(l0 + l1 + l2 + l3 + l4, l5);
    lemma_crlf_concat(l0 + l1 + l2 + l3 + l4 + l5, exe);
    lemma_crlf_concat(l0 + l1 + l2 + l3 + l4 + l5 + exe, l6);
    lemma_crlf_concat(l0 + l1 + l2 + l3 + l4 + l5 + exe + l6, l7);
}

/// The launcher of every Windows bundle ends every line with CR LF.
pub proof fn lemma_windows_launcher_crlf(arch: Seq<char>, layout: HostLayout)
    requires
        host_layout_for("windows"@, arch, layout),
    ensures
        crlf_line_ends(launcher_text(layout)),
{
    lemma_launcher_kind("windows"@, arch, layout);
    reveal_strlit("flt.exe");
    lemma_batch_launcher_crlf("flt.exe"@);
}

/// No character of `s` is `c`.
pub open spec fn lacks_char(s: Seq<char>, c: char) -> bool {
    forall|i: int| 0 <= i < s.len() ==> #[trigger] s[i] != c
}

/// No `D` in `s` is followed by a `Y`.
pub open spec fn lacks_dy(s: Seq<char>) -> bool {
    forall|i: int| 0 <= i && i + 1 < s.len() ==> !(#[trigger] s[i] == 'D' && s[i + 1] == 'Y')
}

proof fn lemma_lacks_concat(a: Seq<char>, b: Seq<char>)
    requires
        lacks_char(a, '\r'),
        lacks_char(b, '\r'),
        lacks_dy(a),
        lacks_dy(b),
        b.len() > 0 ==> b[0] != 'Y',
    ensures
        lacks_char(a + b, '\r'),
        lacks_dy(a + b),
        lacks_char(a, 'Y') && lacks_char(b, 'Y') ==> lacks_char(a + b, 'Y'),
{
    let s = a + b;
    assert forall|i: int| 0 <= i < s.len() implies #[trigger] s[i] != '\r' by {
        if i < a.len() {
            assert(s[i] == a[i]);
        } else {
            assert(s[i] == b[i - a.len()]);
        }
    }
    assert forall|i: int| 0 <= i && i + 1 < s.len() implies !(#[trigger] s[i] == 'D' && s[i + 1]
        == 'Y') by {
        if i + 1 < a.len() {
            assert(s[i] == a[i] && s[i + 1] == a[i + 1]);
        } else if i + 1 == a.len() {
            assert(s[i + 1] == b[0]);
        } else {
            assert(s[i] == b[i - a.len()] && s[i + 1] == b[i + 1 - a.len()]);
        }
    }
    if lacks_char(a, 'Y') && lacks_char(b, 'Y') {
        assert forall|i: int| 0 <= i < s.len() implies #[trigger] s[i] != 'Y' by {
            if i < a.len() {
                assert(s[i] == a[i]);
            } else {
                assert(s[i] == b[i - a.len()]);
            }
        }
    }
}

/// The shell launcher of every Linux and macOS bundle: it starts with its
/// interpreter line, holds no carriage return, runs the bundle's binary from
/// the script's own directory, passes the arguments through at its end,
/// sets `LD_LIBRARY_PATH` exactly when the engine is a shared library, and
/// never relies on a `DYLD_` variable.
pub proof fn lemma_shell_launcher_shape(os: Seq<char>, arch: Seq<char>, layout: HostLayout)
    requires
        os == "linux"@ || os == "macos"@,
        host_layout_for(os, arch, layout),
    ensures
        has_prefix(launcher_text(layout), "#!/bin/sh\n"@),
        lacks_char(launcher_text(layout), '\r'),
        contains_text(launcher_text(layout), "exec \"$here/"@ + layout.executable@ + "\""@),
        has_suffix(launcher_text(layout), "\"$@\"\n"@),
        contains_text(launcher_text(layout), "LD_LIBRARY_PATH"@) <==> layout.engine is SharedLibrary,
        !contains_text(launcher_text(layout), "DYLD_"@),
{
    lemma_launcher_kind(os, arch, layout);
    reveal_strlit("#!/bin/sh\n");
    reveal_strlit("# Runs the terminal application from this directory.\n");
    reveal_strlit("here=$(cd \"$(dirname \"$0\")\" && pwd)\n");
    reveal_strlit("exec \"$here/");
    reveal_strlit("\" \\\n");
    reveal_strlit("  --assets-dir \"$here/data/flutter_assets\" \\\n");
    reveal_strlit("  --icu-data-path \"$here/data/icudtl.dat\" \\\n");
    reveal_strlit("  --log-file \"${FLT_LOG_FILE:-$here/app.log}\" \"$@\"\n");
    reveal_strlit("LD_LIBRARY_PATH=\"$here/lib:$LD_LIBRARY_PATH\" \\\n");
    reveal_strlit("LD_LIBRARY_PATH");
    reveal_strlit("=\"$here/lib:$LD_LIBRARY_PATH\" \\\n");
    reveal_strlit("\"");
    reveal_strlit(" \\\n");
    reveal_strlit("  --log-file \"${FLT_LOG_FILE:-$here/app.log}\" ");
    reveal_strlit("\"$@\"\n");
    reveal_strlit("flt");
    reveal_strlit("DYLD_");
    reveal_strlit("linux");
    reveal_strlit("macos");
    assert("linux"@[0] != "macos"@[0]);
    let p0 = "#!/bin/sh\n"@;
    let p1 = "# Runs the terminal application from this directory.\n"@;
    let p2 = "here=$(cd \"$(dirname \"$0\")\" && pwd)\n"@;
    let p3 = "exec \"$here/"@;
    let p4 = "\" \\\n"@;
    let p5 = "  --assets-dir \"$here/data/flutter_assets\" \\\n"@;
    let p6 = "  --icu-data-path \"$here/data/icudtl.dat\" \\\n"@;
    let p7 = "  --log-file \"${FLT_LOG_FILE:-$here/app.log}\" \"$@\"\n"@;
    let exe = "flt"@;
    let lib = library_path_line(layout.engine);
    let text = launcher_text(layout);
    assert(text == p0 + p1 + p2 + lib + p3 + exe + p4 + p5 + p6 + p7);
    if os == "linux"@ {
        assert(lib == "LD_LIBRARY_PATH=\"$here/lib:$LD_LIBRARY_PATH\" \\\n"@);
        assert(layout.engine is SharedLibrary);
    } else {
        assert(lib == Seq::<char>::empty());
        assert(layout.engine is Framework);
    }
    // Every piece lacks a carriage return and a `D` before a `Y`, and none
    // starts with a `Y`.
    assert(lacks_char(p0, '\r') && lacks_dy(p0));
    assert(lacks_char(p1, '\r') && lacks_dy(p1) && lacks_char(p1, 'Y'));
    assert(lacks_char(p2, '\r') && lacks_dy(p2) && lacks_char(p2, 'Y'));
    assert(lacks_char(lib, '\r') && lacks_dy(lib));
    assert(lacks_char(p3, '\r') && lacks_dy(p3) && lacks_char(p3, 'Y'));
    assert(lacks_char(exe, '\r') && lacks_dy(exe) && lacks_char(exe, 'Y'));
    assert(lacks_char(p4, '\r') && lacks_dy(p4) && lacks_char(p4, 'Y'));
    assert(lacks_char(p5, '\r') && lacks_dy(p5) && lacks_char(p5, 'Y'));
    assert(lacks_char(p6, '\r') && lacks_dy(p6) && lacks_char(p6, 'Y'));
    assert(lacks_char(p7, '\r') && lacks_dy(p7) && lacks_char(p7, 'Y'));
    assert(lacks_char(p0, 'Y'));
    assert(lib.len() > 0 ==> lib[0] != 'Y');
    lemma_lacks_concat(p0, p1);
    lemma_lacks_concat(p0 + p1, p2);
    lemma_lacks_concat(p0 + p1 + p2, lib);
    lemma_lacks_concat(p0 + p1 + p2 + lib, p3);
    lemma_lacks_concat(p0 + p1 + p2 + lib + p3, exe);
    lemma_lacks_concat(p0 + p1 + p2 + lib + p3 + exe, p4);
    lemma_lacks_concat(p0 + p1 + p2 + lib + p3 + exe + p4, p5);
    lemma_lacks_concat(p0 + p1 + p2 + lib + p3 + exe + p4 + p5, p6);
    lemma_lacks_concat(p0 + p1 + p2 + lib + p3 + exe + p4 + p5 + p6, p7);
    // The interpreter line.
    assert(text.subrange(0, p0.len() as int) =~= p0);
    // The line that runs the binary.
    assert(p4 =~= "\""@ + " \\\n"@);
    let word = p3 + exe + "\""@;
    assert(text =~= (p0 + p1 + p2 + lib) + word + (" \\\n"@ + p5 + p6 + p7));
    lemma_contains_middle(p0 + p1 + p2 + lib, word, " \\\n"@ + p5 + p6 + p7);
    // The arguments passed through at the end.
    assert(p7 =~= "  --log-file \"${FLT_LOG_FILE:-$here/app.log}\" "@ + "\"$@\"\n"@);
    let lead = p0 + p1 + p2 + lib + p3 + exe + p4 + p5 + p6 + "  --log-file \"${FLT_LOG_FILE:-$here/app.log}\" "@;
    assert(text =~= lead + "\"$@\"\n"@);
    assert(text.subrange(text.len() - "\"$@\"\n"@.len(), text.len() as int) =~= "\"$@\"\n"@);
    // `DYLD_` would put a `Y` right after a `D`.
    if contains_text(text, "DYLD_"@) {
        let i = choose|i: int|
            0 <= i && i + "DYLD_"@.len() <= text.len() && #[trigger] text.subrange(
                i,
                i + "DYLD_"@.len(),
            ) == "DYLD_"@;
        assert(text.subrange(i, i + 5)[0] == 'D' && text.subrange(i, i + 5)[1] == 'Y');
        assert(text[i] == 'D' && text[i + 1] == 'Y');
    }
    if os == "linux"@ {
        assert(lib =~= "LD_LIBRARY_PATH"@ + "=\"$here/lib:$LD_LIBRARY_PATH\" \\\n"@);
        assert(text =~= (p0 + p1 + p2) + "LD_LIBRARY_PATH"@ + ("=\"$here/lib:$LD_LIBRARY_PATH\" \\\n"@ + p3 + exe + p4 + p5 + p6 + p7));
        lemma_contains_middle(p0 + p1 + p2, "LD_LIBRARY_PATH"@, "=\"$here/lib:$LD_LIBRARY_PATH\" \\\n"@ + p3 + exe + p4 + p5 + p6 + p7);
    } else {
        // Without the library line the script holds no `Y`, and
        // `LD_LIBRARY_PATH` has one.
        if contains_text(text, "LD_LIBRARY_PATH"@) {
            let i = choose|i: int|
                0 <= i && i + "LD_LIBRARY_PATH"@.len() <= text.len() && #[trigger] text.subrange(
                    i,
                    i + "LD_LIBRARY_PATH"@.len(),
                ) == "LD_LIBRARY_PATH"@;
            assert(text.subrange(i, i + 15)[9] == 'Y');
            assert(text[i + 9] == 'Y');
        }
    }
}

/// A word in a piece of text occurs in any text around that piece.
proof fn lemma_contains_in(before: Seq<char>, piece: Seq<char>, after: Seq<char>, word: Seq<char>)
    requires
        contains_text(piece, word),
    ensures
        contains_text(before + piece + after, word),
{
    let i = choose|i: int|
        0 <= i && i + word.len() <= piece.len() && #[trigger] piece.subrange(i, i + word.len())
            == word;
    let s = before + piece + after;
    assert(s.subrange(before.len() + i, before.len() + i + word.len()) =~= piece.subrange(
        i,
        i + word.len(),
    ));
}

/// Every launcher runs the bundle's own binary from the launcher's directory
/// with the bundle's assets, its ICU data and a log file, and passes the
/// launcher's arguments on: a batch file with `%here%` paths, or a shell
/// script with `$here` paths, whatever the engine.
pub proof fn lemma_launcher_arguments(layout: HostLayout)
    ensures
        has_suffix(layout.launcher@, ".cmd"@) ==> {
            let text = launcher_text(layout);
            &&& contains_text(text, "\"%here%"@ + layout.executable@ + "\""@)
            &&& contains_text(text, "--assets-dir \"%here%data\\flutter_assets\""@)
            &&& contains_text(text, "--icu-data-path \"%here%data\\icudtl.dat\""@)
            &&& contains_text(text, "--log-file \"%FLT_LOG_FILE%\""@)
            &&& contains_text(text, "%*"@)
        },
        !has_suffix(layout.launcher@, ".cmd"@) ==> {
            let text = launcher_text(layout);
            &&& contains_text(text, "exec \"$here/"@ + layout.executable@ + "\""@)
            &&& contains_text(text, "--assets-dir \"$here/data/flutter_assets\""@)
            &&& contains_text(text, "--icu-data-path \"$here/data/icudtl.dat\""@)
            &&& contains_text(text, "--log-file \"${FLT_LOG_FILE:-$here/app.log}\""@)
            &&& contains_text(text, "\"$@\""@)
        },
{
    reveal_strlit("#!/bin/sh\n");
    reveal_strlit("# Runs the terminal application from this directory.\n");
    reveal_strlit("here=$(cd \"$(dirname \"$0\")\" && pwd)\n");
    reveal_strlit("exec \"$here/");
    reveal_strlit("\" \\\n");
    reveal_strlit("  --assets-dir \"$here/data/flutter_assets\" \\\n");
    reveal_strlit("  --icu-data-path \"$here/data/icudtl.dat\" \\\n");
    reveal_strlit("  --log-file \"${FLT_LOG_FILE:-$here/app.log}\" \"$@\"\n");
    reveal_strlit("  ");
    reveal_strlit(" \\\n");
    reveal_strlit("\"");
    reveal_strlit("--assets-dir \"$here/data/flutter_assets\"");
    reveal_strlit("--icu-data-path \"$here/data/icudtl.dat\"");
    reveal_strlit("--log-file \"${FLT_LOG_FILE:-$here/app.log}\"");
    reveal_strlit(" ");
    reveal_strlit("\"$@\"");
    reveal_strlit("\n");
    reveal_strlit("@echo off\r\n");
    reveal_strlit("rem Runs the terminal application from this directory.\r\n");
    reveal_strlit("setlocal\r\n");
    reveal_strlit("set \"here=%~dp0\"\r\n");
    reveal_strlit("if \"%FLT_LOG_FILE%\"==\"\" set \"FLT_LOG_FILE=%here%app.log\"\r\n");
    reveal_strlit("\"%here%");
    reveal_strlit("\" --assets-dir \"%here%data\\flutter_assets\" --icu-data-path \"%here%data\\icudtl.dat\" --log-file \"%FLT_LOG_FILE%\" %*\r\n");
    reveal_strlit("exit /b %ERRORLEVEL%\r\n");
    reveal_strlit("\" ");
    reveal_strlit("--assets-dir \"%here%data\\flutter_assets\"");
    reveal_strlit("--icu-data-path \"%here%data\\icudtl.dat\"");
    reveal_strlit("--log-file \"%FLT_LOG_FILE%\"");
    reveal_strlit("%*");
    reveal_strlit("\r\n");
    let exe = layout.executable@;
    let text = launcher_text(layout);
    if has_suffix(layout.launcher@, ".cmd"@) {
        let head = "@echo off\r\n"@ + "rem Runs the terminal application from this directory.\r\n"@ + "setlocal\r\n"@ + "set \"here=%~dp0\"\r\n"@ + "if \"%FLT_LOG_FILE%\"==\"\" set \"FLT_LOG_FILE=%here%app.log\"\r\n"@;
        assert(text == head + "\"%here%"@ + exe + "\" --assets-dir \"%here%data\\flutter_assets\" --icu-data-path \"%here%data\\icudtl.dat\" --log-file \"%FLT_LOG_FILE%\" %*\r\n"@ + "exit /b %ERRORLEVEL%\r\n"@);
        assert("\" --assets-dir \"%here%data\\flutter_assets\" --icu-data-path \"%here%data\\icudtl.dat\" --log-file \"%FLT_LOG_FILE%\" %*\r\n"@ =~= "\" "@ + "--assets-dir \"%here%data\\flutter_assets\""@ + " "@ + "--icu-data-path \"%here%data\\icudtl.dat\""@ + " "@ + "--log-file \"%FLT_LOG_FILE%\""@ + " "@ + "%*"@ + "\r\n"@);
        // The binary.
        let call = "\"%here%"@ + exe + "\""@;
        assert("\" --assets-dir \"%here%data\\flutter_assets\" --icu-data-path \"%here%data\\icudtl.dat\" --log-file \"%FLT_LOG_FILE%\" %*\r\n"@ =~= "\""@ + (" "@ + "--assets-dir \"%here%data\\flutter_assets\""@ + " "@ + "--icu-data-path \"%here%data\\icudtl.dat\""@ + " "@ + "--log-file \"%FLT_LOG_FILE%\""@ + " "@ + "%*"@ + "\r\n"@));
        assert(text =~= head + call + (" "@ + "--assets-dir \"%here%data\\flutter_assets\""@ + " "@ + "--icu-data-path \"%here%data\\icudtl.dat\""@ + " "@ + "--log-file \"%FLT_LOG_FILE%\""@ + " "@ + "%*"@
            + "\r\n"@ + "exit /b %ERRORLEVEL%\r\n"@));
        lemma_contains_middle(head, call, " "@ + "--assets-dir \"%here%data\\flutter_assets\""@ + " "@ + "--icu-data-path \"%here%data\\icudtl.dat\""@ + " "@ + "--log-file \"%FLT_LOG_FILE%\""@ + " "@ + "%*"@
            + "\r\n"@ + "exit /b %ERRORLEVEL%\r\n"@);
        // The arguments, within their line.
        let pre = head + "\"%here%"@ + exe;
        lemma_contains_middle("\" "@, "--assets-dir \"%here%data\\flutter_assets\""@, " "@ + "--icu-data-path \"%here%data\\icudtl.dat\""@ + " "@ + "--log-file \"%FLT_LOG_FILE%\""@ + " "@ + "%*"@ + "\r\n"@);
        assert("\" --assets-dir \"%here%data\\flutter_assets\" --icu-data-path \"%here%data\\icudtl.dat\" --log-file \"%FLT_LOG_FILE%\" %*\r\n"@ =~= "\" "@ + "--assets-dir \"%here%data\\flutter_assets\""@ + (" "@ + "--icu-data-path \"%here%data\\icudtl.dat\""@ + " "@ + "--log-file \"%FLT_LOG_FILE%\""@ + " "@ + "%*"@ + "\r\n"@));
        lemma_contains_in(pre, "\" --assets-dir \"%here%data\\flutter_assets\" --icu-data-path \"%here%data\\icudtl.dat\" --log-file \"%FLT_LOG_FILE%\" %*\r\n"@, "exit /b %ERRORLEVEL%\r\n"@, "--assets-dir \"%here%data\\flutter_assets\""@);
        lemma_contains_middle("\" "@ + "--assets-dir \"%here%data\\flutter_assets\""@ + " "@, "--icu-data-path \"%here%data\\icudtl.dat\""@, " "@ + "--log-file \"%FLT_LOG_FILE%\""@ + " "@ + "%*"@ + "\r\n"@);
        assert("\" --assets-dir \"%here%data\\flutter_assets\" --icu-data-path \"%here%data\\icudtl.dat\" --log-file \"%FLT_LOG_FILE%\" %*\r\n"@ =~= "\" "@ + "--assets-dir \"%here%data\\flutter_assets\""@ + " "@ + "--icu-data-path \"%here%data\\icudtl.dat\""@ + (" "@ + "--log-file \"%FLT_LOG_FILE%\""@ + " "@ + "%*"@ + "\r\n"@));
        lemma_contains_in(pre, "\" --assets-dir \"%here%data\\flutter_assets\" --icu-data-path \"%here%data\\icudtl.dat\" --log-file \"%FLT_LOG_FILE%\" %*\r\n"@, "exit /b %ERRORLEVEL%\r\n"@, "--icu-data-path \"%here%data\\icudtl.dat\""@);
        lemma_contains_middle("\" "@ + "--assets-dir \"%here%data\\flutter_assets\""@ + " "@ + "--icu-data-path \"%here%data\\icudtl.dat\""@ + " "@, "--log-file \"%FLT_LOG_FILE%\""@, " "@ + "%*"@ + "\r\n"@);
        assert("\" --assets-dir \"%here%data\\flutter_assets\" --icu-data-path \"%here%data\\icudtl.dat\" --log-file \"%FLT_LOG_FILE%\" %*\r\n"@ =~= "\" "@ + "--assets-dir \"%here%data\\flutter_assets\""@ + " "@ + "--icu-data-path \"%here%data\\icudtl.dat\""@ + " "@ + "--log-file \"%FLT_LOG_FILE%\""@ + (" "@ + "%*"@ + "\r\n"@));
        lemma_contains_in(pre, "\" --assets-dir \"%here%data\\flutter_assets\" --icu-data-path \"%here%data\\icudtl.dat\" --log-file \"%FLT_LOG_FILE%\" %*\r\n"@, "exit /b %ERRORLEVEL%\r\n"@, "--log-file \"%FLT_LOG_FILE%\""@);
        lemma_contains_middle("\" "@ + "--assets-dir \"%here%data\\flutter_assets\""@ + " "@ + "--icu-data-path \"%here%data\\icudtl.dat\""@ + " "@ + "--log-file \"%FLT_LOG_FILE%\""@ + " "@, "%*"@, "\r\n"@);
        lemma_contains_in(pre, "\" --assets-dir \"%here%data\\flutter_assets\" --icu-data-path \"%here%data\\icudtl.dat\" --log-file \"%FLT_LOG_FILE%\" %*\r\n"@, "exit /b %ERRORLEVEL%\r\n"@, "%*"@);
    } else {
        let lib = library_path_line(layout.engine);
        let head = "#!/bin/sh\n"@ + "# Runs the terminal application from this directory.\n"@ + "here=$(cd \"$(dirname \"$0\")\" && pwd)\n"@ + lib;
        assert(text == head + "exec \"$here/"@ + exe + "\" \\\n"@ + "  --assets-dir \"$here/data/flutter_assets\" \\\n"@ + "  --icu-data-path \"$here/data/icudtl.dat\" \\\n"@ + "  --log-file \"${FLT_LOG_FILE:-$here/app.log}\" \"$@\"\n"@);
        // The binary.
        let call = "exec \"$here/"@ + exe + "\""@;
        assert("\" \\\n"@ =~= "\""@ + " \\\n"@);
        assert(text =~= head + call + (" \\\n"@ + "  --assets-dir \"$here/data/flutter_assets\" \\\n"@ + "  --icu-data-path \"$here/data/icudtl.dat\" \\\n"@ + "  --log-file \"${FLT_LOG_FILE:-$here/app.log}\" \"$@\"\n"@));
        lemma_contains_middle(head, call, " \\\n"@ + "  --assets-dir \"$here/data/flutter_assets\" \\\n"@ + "  --icu-data-path \"$here/data/icudtl.dat\" \\\n"@ + "  --log-file \"${FLT_LOG_FILE:-$here/app.log}\" \"$@\"\n"@);
        // The assets.
        assert("  --assets-dir \"$here/data/flutter_assets\" \\\n"@ =~= "  "@ + "--assets-dir \"$here/data/flutter_assets\""@ + " \\\n"@);
        lemma_contains_middle("  "@, "--assets-dir \"$here/data/flutter_assets\""@, " \\\n"@);
        assert(text =~= (head + "exec \"$here/"@ + exe + "\" \\\n"@) + "  --assets-dir \"$here/data/flutter_assets\" \\\n"@ + ("  --icu-data-path \"$here/data/icudtl.dat\" \\\n"@ + "  --log-file \"${FLT_LOG_FILE:-$here/app.log}\" \"$@\"\n"@));
        lemma_contains_in(head + "exec \"$here/"@ + exe + "\" \\\n"@, "  --assets-dir \"$here/data/flutter_assets\" \\\n"@, "  --icu-data-path \"$here/data/icudtl.dat\" \\\n"@ + "  --log-file \"${FLT_LOG_FILE:-$here/app.log}\" \"$@\"\n"@, "--assets-dir \"$here/data/flutter_assets\""@);
        // The ICU data.
        assert("  --icu-data-path \"$here/data/icudtl.dat\" \\\n"@ =~= "  "@ + "--icu-data-path \"$here/data/icudtl.dat\""@ + " \\\n"@);
        lemma_contains_middle("  "@, "--icu-data-path \"$here/data/icudtl.dat\""@, " \\\n"@);
        assert(text =~= (head + "exec \"$here/"@ + exe + "\" \\\n"@ + "  --assets-dir \"$here/data/flutter_assets\" \\\n"@) + "  --icu-data-path \"$here/data/icudtl.dat\" \\\n"@ + "  --log-file \"${FLT_LOG_FILE:-$here/app.log}\" \"$@\"\n"@);
        lemma_contains_in(head + "exec \"$here/"@ + exe + "\" \\\n"@ + "  --assets-dir \"$here/data/flutter_assets\" \\\n"@, "  --icu-data-path \"$here/data/icudtl.dat\" \\\n"@, "  --log-file \"${FLT_LOG_FILE:-$here/app.log}\" \"$@\"\n"@, "--icu-data-path \"$here/data/icudtl.dat\""@);
        // The log file, and the arguments passed on.
        assert("  --log-file \"${FLT_LOG_FILE:-$here/app.log}\" \"$@\"\n"@ =~= "  "@ + "--log-file \"${FLT_LOG_FILE:-$here/app.log}\""@ + " "@ + "\"$@\""@ + "\n"@);
        lemma_contains_middle("  "@, "--log-file \"${FLT_LOG_FILE:-$here/app.log}\""@, " "@ + "\"$@\""@ + "\n"@);
        assert("  --log-file \"${FLT_LOG_FILE:-$here/app.log}\" \"$@\"\n"@ =~= "  "@ + "--log-file \"${FLT_LOG_FILE:-$here/app.log}\""@ + (" "@ + "\"$@\""@ + "\n"@));
        assert(text =~= (head + "exec \"$here/"@ + exe + "\" \\\n"@ + "  --assets-dir \"$here/data/flutter_assets\" \\\n"@ + "  --icu-data-path \"$here/data/icudtl.dat\" \\\n"@) + "  --log-file \"${FLT_LOG_FILE:-$here/app.log}\" \"$@\"\n"@ + Seq::empty());
        lemma_contains_in(head + "exec \"$here/"@ + exe + "\" \\\n"@ + "  --assets-dir \"$here/data/flutter_assets\" \\\n"@ + "  --icu-data-path \"$here/data/icudtl.dat\" \\\n"@, "  --log-file \"${FLT_LOG_FILE:-$here/app.log}\" \"$@\"\n"@, Seq::empty(), "--log-file \"${FLT_LOG_FILE:-$here/app.log}\""@);
        lemma_contains_middle("  "@ + "--log-file \"${FLT_LOG_FILE:-$here/app.log}\""@ + " "@, "\"$@\""@, "\n"@);
        lemma_contains_in(head + "exec \"$here/"@ + exe + "\" \\\n"@ + "  --assets-dir \"$here/data/flutter_assets\" \\\n"@ + "  --icu-data-path \"$here/data/icudtl.dat\" \\\n"@, "  --log-file \"${FLT_LOG_FILE:-$here/app.log}\" \"$@\"\n"@, Seq::empty(), "\"$@\""@);
    }
}

/// A shell launcher for a framework and one for a shared library differ only
/// in the line that puts the bundle's `lib` directory on the library path,
/// after the three opening lines.
pub proof fn lemma_library_line_is_the_only_difference(framework: HostLayout, shared: HostLayout)
    requires
        framework.engine is Framework,
        shared.engine is SharedLibrary,
        framework.executable@ == shared.executable@,
        framework.launcher@ == shared.launcher@,
        !has_suffix(framework.launcher@, ".cmd"@),
    ensures
        ({
            let k = ("#!/bin/sh\n"@ + "# Runs the terminal application from this directory.\n"@ + "here=$(cd \"$(dirname \"$0\")\" && pwd)\n"@).len() as int;
            let text = launcher_text(framework);
            &&& text.take(k) == "#!/bin/sh\n"@ + "# Runs the terminal application from this directory.\n"@ + "here=$(cd \"$(dirname \"$0\")\" && pwd)\n"@
            &&& launcher_text(shared) == text.take(k) + "LD_LIBRARY_PATH=\"$here/lib:$LD_LIBRARY_PATH\" \\\n"@ + text.skip(k)
        }),
{
    let exe = framework.executable@;
    let head = "#!/bin/sh\n"@ + "# Runs the terminal application from this directory.\n"@ + "here=$(cd \"$(dirname \"$0\")\" && pwd)\n"@;
    let rest = "exec \"$here/"@ + exe + "\" \\\n"@ + "  --assets-dir \"$here/data/flutter_assets\" \\\n"@ + "  --icu-data-path \"$here/data/icudtl.dat\" \\\n"@ + "  --log-file \"${FLT_LOG_FILE:-$here/app.log}\" \"$@\"\n"@;
    assert(launcher_text(framework) =~= head + rest);
    assert(launcher_text(shared) =~= head + "LD_LIBRARY_PATH=\"$here/lib:$LD_LIBRARY_PATH\" \\\n"@ + rest);
    assert((head + rest).take(head.len() as int) =~= head);
    assert((head + rest).skip(head.len() as int) =~= rest);
}

} // verus!
