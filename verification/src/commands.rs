//! The textual command channel: every convenience operation is one line of
//! text, a command name followed by space-separated arguments, with path
//! arguments quoted. This module builds those lines and rejects text that
//! could not cross the native boundary (embedded null bytes).

use vstd::prelude::*;
use vstd::string::StringExecFns;
use vstd::string::StrSliceExecFns;

use crate::data::{FileState, file_state_str};
use crate::errors::{Error, ErrorV};
use crate::numstr::{
    dec_digits, dec_int, i64_to_string, lemma_dec_digits_range, lemma_dec_int_plain, u64_to_string,
    usize_to_string,
};

verus! {

/// Whether a character sequence holds an embedded null byte.
pub open spec fn contains_nul(s: Seq<char>) -> bool {
    exists|i: int| 0 <= i < s.len() && s[i] == '\0'
}

/// The views of a sequence of strings.
pub open spec fn views_of(args: Seq<String>) -> Seq<Seq<char>> {
    args.map_values(|a: String| a@)
}

/// The argument part of a command line: one space before each argument.
pub open spec fn args_part(args: Seq<Seq<char>>) -> Seq<char>
    decreases args.len(),
{
    if args.len() == 0 {
        Seq::empty()
    } else {
        args_part(args.drop_last()) + seq![' '] + args.last()
    }
}

/// A full command line: the command name, then the arguments.
pub open spec fn cmd_line(name: Seq<char>, args: Seq<Seq<char>>) -> Seq<char> {
    name + args_part(args)
}

/// A path argument, wrapped in double quotes.
pub open spec fn quoted(p: Seq<char>) -> Seq<char> {
    seq!['"'] + p + seq!['"']
}

/// A concatenation holds a null byte exactly when one of its parts does.
pub proof fn lemma_contains_nul_concat(a: Seq<char>, b: Seq<char>)
    ensures
        contains_nul(a + b) <==> contains_nul(a) || contains_nul(b),
{
    if contains_nul(a) {
        let i = choose|i: int| 0 <= i < a.len() && a[i] == '\0';
        assert((a + b)[i] == '\0');
    }
    if contains_nul(b) {
        let i = choose|i: int| 0 <= i < b.len() && b[i] == '\0';
        assert((a + b)[a.len() + i] == '\0');
    }
    if contains_nul(a + b) {
        let i = choose|i: int| 0 <= i < (a + b).len() && (a + b)[i] == '\0';
        if i < a.len() {
            assert(a[i] == '\0');
        } else {
            assert(b[i - a.len()] == '\0');
        }
    }
}

/// A quoted path holds a null byte exactly when the path does.
pub proof fn lemma_contains_nul_quoted(p: Seq<char>)
    ensures
        contains_nul(quoted(p)) <==> contains_nul(p),
{
    lemma_contains_nul_concat(seq!['"'] + p, seq!['"']);
    lemma_contains_nul_concat(seq!['"'], p);
    assert(!contains_nul(seq!['"']));
    assert(!contains_nul(seq!['"'].drop_last())) by {
        assert(seq!['"'].drop_last().len() == 0);
    }
}

/// A decimal rendering never holds a null byte.
pub proof fn lemma_dec_digits_nul_free(n: nat)
    ensures
        !contains_nul(dec_digits(n)),
{
    lemma_dec_digits_range(n);
}

/// A signed decimal rendering never holds a null byte.
pub proof fn lemma_dec_int_nul_free(i: int)
    ensures
        !contains_nul(dec_int(i)),
{
    lemma_dec_int_plain(i);
}

/// The argument part of a line holds a null byte exactly when some argument
/// does.
pub proof fn lemma_args_part_nul(args: Seq<Seq<char>>)
    ensures
        contains_nul(args_part(args)) <==> (exists|j: int|
            0 <= j < args.len() && contains_nul(#[trigger] args[j])),
    decreases args.len(),
{
    if args.len() == 0 {
        assert(args_part(args).len() == 0);
    } else {
        let dl = args.drop_last();
        lemma_args_part_nul(dl);
        lemma_contains_nul_concat(args_part(dl) + seq![' '], args.last());
        lemma_contains_nul_concat(args_part(dl), seq![' ']);
        assert(!contains_nul(seq![' ']));
        if exists|j: int| 0 <= j < dl.len() && contains_nul(#[trigger] dl[j]) {
            let j = choose|j: int| 0 <= j < dl.len() && contains_nul(#[trigger] dl[j]);
            assert(contains_nul(args[j]));
        }
        if contains_nul(args.last()) {
            assert(contains_nul(args[args.len() - 1]));
        }
        if exists|j: int| 0 <= j < args.len() && contains_nul(#[trigger] args[j]) {
            let j = choose|j: int| 0 <= j < args.len() && contains_nul(#[trigger] args[j]);
            if j < args.len() - 1 {
                assert(contains_nul(dl[j]));
            }
        }
    }
}

/// A command line holds a null byte exactly when its name or one of its
/// arguments does.
pub proof fn lemma_cmd_line_nul(name: Seq<char>, args: Seq<Seq<char>>)
    ensures
        contains_nul(cmd_line(name, args)) <==> (contains_nul(name) || exists|j: int|
            0 <= j < args.len() && contains_nul(#[trigger] args[j])),
{
    lemma_contains_nul_concat(name, args_part(args));
    lemma_args_part_nul(args);
}

/// Scan a string for an embedded null byte.
pub fn str_contains_nul(s: &str) -> (b: bool)
    ensures
        b == contains_nul(s@),
{
    let n = s.unicode_len();
    let mut i: usize = 0;
    while i < n
        invariant
            0 <= i <= n,
            n == s@.len(),
            forall|k: int| 0 <= k < i ==> s@[k] != '\0',
        decreases n - i,
    {
        if s.get_char(i) == '\0' {
            return true;
        }
        i += 1;
    }
    false
}

/// Reject a text argument that holds an embedded null byte.
pub fn check_string_arg(s: &str) -> (r: Result<(), Error>)
    ensures
        r is Ok <==> !contains_nul(s@),
        r matches Err(e) ==> e@ == ErrorV::InvalidStringArgument,
{
    if str_contains_nul(s) {
        Err(Error::InvalidStringArgument)
    } else {
        Ok(())
    }
}

/// Wrap a path argument in double quotes.
pub fn quoted_arg(path: &str) -> (s: String)
    ensures
        s@ == quoted(path@),
{
    proof {
        reveal_strlit("\"");
    }
    let mut s = String::from_str("\"");
    s.append(path);
    s.append("\"");
    proof {
        assert(s@ =~= quoted(path@));
    }
    s
}

/// Build the single text line of a command: the name, then each argument
/// preceded by one space. A line holding an embedded null byte is rejected,
/// since it could not cross the native boundary.
pub fn command_line(name: &str, args: &Vec<String>) -> (r: Result<String, Error>)
    ensures
        !contains_nul(cmd_line(name@, views_of(args@))) ==> (r matches Ok(s) && s@ == cmd_line(
            name@,
            views_of(args@),
        )),
        contains_nul(cmd_line(name@, views_of(args@))) ==> (r matches Err(e) && e@
            == ErrorV::InvalidStringArgument),
{
    let mut s = String::from_str(name);
    let mut i: usize = 0;
    proof {
        assert(views_of(args@.take(0)) =~= Seq::<Seq<char>>::empty());
        assert(s@ =~= cmd_line(name@, views_of(args@.take(0))));
    }
    while i < args.len()
        invariant
            0 <= i <= args@.len(),
            s@ == cmd_line(name@, views_of(args@.take(i as int))),
        decreases args@.len() - i,
    {
        s.append(" ");
        s.append(args[i].as_str());
        proof {
            reveal_strlit(" ");
            let prev = args@.take(i as int);
            let now = args@.take(i + 1);
            assert(views_of(now).drop_last() =~= views_of(prev));
            assert(views_of(now).last() == args@[i as int]@);
            assert(s@ =~= cmd_line(name@, views_of(now)));
        }
        i += 1;
    }
    proof {
        assert(args@.take(args@.len() as int) =~= args@);
    }
    if str_contains_nul(s.as_str()) {
        Err(Error::InvalidStringArgument)
    } else {
        Ok(s)
    }
}

/// The view of an optional string argument.
pub open spec fn opt_view(o: Option<&str>) -> Option<Seq<char>> {
    match o {
        Option::Some(s) => Option::Some(s@),
        Option::None => Option::None,
    }
}

/// The view of an optional string argument, the empty text when absent.
pub open spec fn opt_or_empty(o: Option<&str>) -> Seq<char> {
    match o {
        Option::Some(s) => s@,
        Option::None => Seq::empty(),
    }
}

/// Add (or, with a negative value, subtract) an amount from a property.
pub fn add_property(property: &str, value: i64) -> (r: Result<String, Error>)
    ensures
        !contains_nul(property@) ==> (r matches Ok(s) && s@ == cmd_line(
            "add"@,
            seq![property@, dec_int(value as int)],
        )),
        contains_nul(property@) ==> (r matches Err(e) && e@ == ErrorV::InvalidStringArgument),
{
    let args: Vec<String> = vec![property.to_owned(), i64_to_string(value)];
    proof {
        reveal_strlit("add");
        let vs = views_of(args@);
        assert(vs =~= seq![property@, dec_int(value as int)]);
        lemma_dec_int_nul_free(value as int);
        assert(!contains_nul("add"@));
        lemma_cmd_line_nul("add"@, vs);
    }
    command_line("add", &args)
}

/// Cycle a property; `up` picks the direction.
pub fn cycle_property(property: &str, up: bool) -> (r: Result<String, Error>)
    ensures
        !contains_nul(property@) ==> (r matches Ok(s) && s@ == cmd_line(
            "cycle"@,
            seq![property@, if up { "up"@ } else { "down"@ }],
        )),
        contains_nul(property@) ==> (r matches Err(e) && e@ == ErrorV::InvalidStringArgument),
{
    let dir: &str = if up { "up" } else { "down" };
    let args: Vec<String> = vec![property.to_owned(), dir.to_owned()];
    proof {
        reveal_strlit("cycle");
        reveal_strlit("up");
        reveal_strlit("down");
        let vs = views_of(args@);
        assert(vs =~= seq![property@, if up { "up"@ } else { "down"@ }]);
        assert(!contains_nul("cycle"@));
        assert(!contains_nul("up"@));
        assert(!contains_nul("down"@));
        lemma_cmd_line_nul("cycle"@, vs);
    }
    command_line("cycle", &args)
}

/// Multiply a property by a positive factor.
pub fn multiply_property(property: &str, factor: u64) -> (r: Result<String, Error>)
    ensures
        !contains_nul(property@) ==> (r matches Ok(s) && s@ == cmd_line(
            "multiply"@,
            seq![property@, dec_digits(factor as nat)],
        )),
        contains_nul(property@) ==> (r matches Err(e) && e@ == ErrorV::InvalidStringArgument),
{
    let args: Vec<String> = vec![property.to_owned(), u64_to_string(factor)];
    proof {
        reveal_strlit("multiply");
        let vs = views_of(args@);
        assert(vs =~= seq![property@, dec_digits(factor as nat)]);
        lemma_dec_digits_nul_free(factor as nat);
        assert(!contains_nul("multiply"@));
        lemma_cmd_line_nul("multiply"@, vs);
    }
    command_line("multiply", &args)
}

/// Seek forward by a whole number of seconds, relatively.
pub fn seek_forward(secs: u64) -> (r: Result<String, Error>)
    ensures
        r matches Ok(s) && s@ == cmd_line("seek"@, seq![dec_digits(secs as nat), "relative"@]),
{
    let args: Vec<String> = vec![u64_to_string(secs), String::from_str("relative")];
    proof {
        reveal_strlit("seek");
        reveal_strlit("relative");
        let vs = views_of(args@);
        assert(vs =~= seq![dec_digits(secs as nat), "relative"@]);
        lemma_dec_digits_nul_free(secs as nat);
        assert(!contains_nul("seek"@));
        assert(!contains_nul("relative"@));
        lemma_cmd_line_nul("seek"@, vs);
    }
    command_line("seek", &args)
}

/// Seek backward by a whole number of seconds, relatively.
pub fn seek_backward(secs: u64) -> (r: Result<String, Error>)
    ensures
        r matches Ok(s) && s@ == cmd_line(
            "seek"@,
            seq![seq!['-'] + dec_digits(secs as nat), "relative"@],
        ),
{
    proof {
        reveal_strlit("-");
    }
    let mut m = String::from_str("-");
    m.append(u64_to_string(secs).as_str());
    let args: Vec<String> = vec![m, String::from_str("relative")];
    proof {
        reveal_strlit("seek");
        reveal_strlit("relative");
        assert("-"@ =~= seq!['-']);
        let vs = views_of(args@);
        assert(vs =~= seq![seq!['-'] + dec_digits(secs as nat), "relative"@]);
        lemma_dec_digits_nul_free(secs as nat);
        lemma_contains_nul_concat(seq!['-'], dec_digits(secs as nat));
        assert(!contains_nul(seq!['-']));
        assert(!contains_nul("seek"@));
        assert(!contains_nul("relative"@));
        lemma_cmd_line_nul("seek"@, vs);
    }
    command_line("seek", &args)
}

/// Seek to an absolute position, in whole seconds.
pub fn seek_absolute(secs: u64) -> (r: Result<String, Error>)
    ensures
        r matches Ok(s) && s@ == cmd_line("seek"@, seq![dec_digits(secs as nat), "absolute"@]),
{
    let args: Vec<String> = vec![u64_to_string(secs), String::from_str("absolute")];
    proof {
        reveal_strlit("seek");
        reveal_strlit("absolute");
        let vs = views_of(args@);
        assert(vs =~= seq![dec_digits(secs as nat), "absolute"@]);
        lemma_dec_digits_nul_free(secs as nat);
        assert(!contains_nul("seek"@));
        assert(!contains_nul("absolute"@));
        lemma_cmd_line_nul("seek"@, vs);
    }
    command_line("seek", &args)
}

/// Seek by a relative percentage of the playtime; may be negative.
pub fn seek_percent(percent: i64) -> (r: Result<String, Error>)
    ensures
        r matches Ok(s) && s@ == cmd_line(
            "seek"@,
            seq![dec_int(percent as int), "relative-percent"@],
        ),
{
    let args: Vec<String> = vec![i64_to_string(percent), String::from_str("relative-percent")];
    proof {
        reveal_strlit("seek");
        reveal_strlit("relative-percent");
        let vs = views_of(args@);
        assert(vs =~= seq![dec_int(percent as int), "relative-percent"@]);
        lemma_dec_int_nul_free(percent as int);
        assert(!contains_nul("seek"@));
        assert(!contains_nul("relative-percent"@));
        lemma_cmd_line_nul("seek"@, vs);
    }
    command_line("seek", &args)
}

/// Seek to the given absolute percentage of the playtime.
pub fn seek_percent_absolute(percent: u64) -> (r: Result<String, Error>)
    ensures
        r matches Ok(s) && s@ == cmd_line(
            "seek"@,
            seq![dec_digits(percent as nat), "absolute-percent"@],
        ),
{
    let args: Vec<String> = vec![u64_to_string(percent), String::from_str("absolute-percent")];
    proof {
        reveal_strlit("seek");
        reveal_strlit("absolute-percent");
        let vs = views_of(args@);
        assert(vs =~= seq![dec_digits(percent as nat), "absolute-percent"@]);
        lemma_dec_digits_nul_free(percent as nat);
        assert(!contains_nul("seek"@));
        assert(!contains_nul("absolute-percent"@));
        lemma_cmd_line_nul("seek"@, vs);
    }
    command_line("seek", &args)
}

/// Revert the previous seek; can also revert itself.
pub fn seek_revert() -> (r: Result<String, Error>)
    ensures
        r matches Ok(s) && s@ == cmd_line("revert-seek"@, Seq::empty()),
{
    let args: Vec<String> = Vec::new();
    proof {
        reveal_strlit("revert-seek");
        assert(views_of(args@) =~= Seq::<Seq<char>>::empty());
        assert(!contains_nul("revert-seek"@));
        lemma_cmd_line_nul("revert-seek"@, views_of(args@));
    }
    command_line("revert-seek", &args)
}

/// Mark the current position as the target of a later revert.
pub fn seek_revert_mark() -> (r: Result<String, Error>)
    ensures
        r matches Ok(s) && s@ == cmd_line("revert-seek"@, seq!["mark"@]),
{
    let args: Vec<String> = vec![String::from_str("mark")];
    proof {
        reveal_strlit("revert-seek");
        reveal_strlit("mark");
        let vs = views_of(args@);
        assert(vs =~= seq!["mark"@]);
        assert(!contains_nul("revert-seek"@));
        assert(!contains_nul("mark"@));
        lemma_cmd_line_nul("revert-seek"@, vs);
    }
    command_line("revert-seek", &args)
}

/// Step exactly one frame forward and pause.
pub fn seek_frame() -> (r: Result<String, Error>)
    ensures
        r matches Ok(s) && s@ == cmd_line("frame-step"@, Seq::empty()),
{
    let args: Vec<String> = Vec::new();
    proof {
        reveal_strlit("frame-step");
        assert(views_of(args@) =~= Seq::<Seq<char>>::empty());
        assert(!contains_nul("frame-step"@));
        lemma_cmd_line_nul("frame-step"@, views_of(args@));
    }
    command_line("frame-step", &args)
}

/// Step exactly one frame backward and pause.
pub fn seek_frame_backward() -> (r: Result<String, Error>)
    ensures
        r matches Ok(s) && s@ == cmd_line("frame-back-step"@, Seq::empty()),
{
    let args: Vec<String> = Vec::new();
    proof {
        reveal_strlit("frame-back-step");
        assert(views_of(args@) =~= Seq::<Seq<char>>::empty());
        assert(!contains_nul("frame-back-step"@));
        lemma_cmd_line_nul("frame-back-step"@, views_of(args@));
    }
    command_line("frame-back-step", &args)
}

/// One screenshot flavour: what of the frame is included.
fn screenshot(path: Option<&str>, kind: &'static str) -> (r: Result<String, Error>)
    requires
        !contains_nul(kind@),
    ensures
        path is None ==> (r matches Ok(s) && s@ == cmd_line("screenshot"@, seq![kind@])),
        path matches Some(p) ==> ((!contains_nul(p@) ==> (r matches Ok(s) && s@ == cmd_line(
            "screenshot"@,
            seq![quoted(p@), kind@],
        ))) && (contains_nul(p@) ==> (r matches Err(e) && e@
            == ErrorV::InvalidStringArgument))),
{
    proof {
        reveal_strlit("screenshot");
        assert(!contains_nul("screenshot"@));
    }
    match path {
        Some(p) => {
            let args: Vec<String> = vec![quoted_arg(p), kind.to_owned()];
            proof {
                let vs = views_of(args@);
                assert(vs =~= seq![quoted(p@), kind@]);
                lemma_contains_nul_quoted(p@);
                lemma_cmd_line_nul("screenshot"@, vs);
            }
            command_line("screenshot", &args)
        },
        None => {
            let args: Vec<String> = vec![kind.to_owned()];
            proof {
                let vs = views_of(args@);
                assert(vs =~= seq![kind@]);
                lemma_cmd_line_nul("screenshot"@, vs);
            }
            command_line("screenshot", &args)
        },
    }
}

/// Save the video image in original resolution, with subtitles.
pub fn screenshot_subtitles(path: Option<&str>) -> (r: Result<String, Error>)
    ensures
        path is None ==> (r matches Ok(s) && s@ == cmd_line("screenshot"@, seq!["subtitles"@])),
        path matches Some(p) ==> ((!contains_nul(p@) ==> (r matches Ok(s) && s@ == cmd_line(
            "screenshot"@,
            seq![quoted(p@), "subtitles"@],
        ))) && (contains_nul(p@) ==> (r matches Err(e) && e@
            == ErrorV::InvalidStringArgument))),
{
    proof {
        reveal_strlit("subtitles");
        assert(!contains_nul("subtitles"@));
    }
    screenshot(path, "subtitles")
}

/// Save the video image, typically without OSD or subtitles.
pub fn screenshot_video(path: Option<&str>) -> (r: Result<String, Error>)
    ensures
        path is None ==> (r matches Ok(s) && s@ == cmd_line("screenshot"@, seq!["video"@])),
        path matches Some(p) ==> ((!contains_nul(p@) ==> (r matches Ok(s) && s@ == cmd_line(
            "screenshot"@,
            seq![quoted(p@), "video"@],
        ))) && (contains_nul(p@) ==> (r matches Err(e) && e@
            == ErrorV::InvalidStringArgument))),
{
    proof {
        reveal_strlit("video");
        assert(!contains_nul("video"@));
    }
    screenshot(path, "video")
}

/// Save the contents of the window, typically scaled, with OSD and subtitles.
pub fn screenshot_window(path: Option<&str>) -> (r: Result<String, Error>)
    ensures
        path is None ==> (r matches Ok(s) && s@ == cmd_line("screenshot"@, seq!["window"@])),
        path matches Some(p) ==> ((!contains_nul(p@) ==> (r matches Ok(s) && s@ == cmd_line(
            "screenshot"@,
            seq![quoted(p@), "window"@],
        ))) && (contains_nul(p@) ==> (r matches Err(e) && e@
            == ErrorV::InvalidStringArgument))),
{
    proof {
        reveal_strlit("window");
        assert(!contains_nul("window"@));
    }
    screenshot(path, "window")
}


/// A playlist step command: next or previous, weak or forced.
fn playlist_step(name: &'static str, mode: &'static str) -> (r: Result<String, Error>)
    requires
        !contains_nul(name@),
        !contains_nul(mode@),
    ensures
        r matches Ok(s) && s@ == cmd_line(name@, seq![mode@]),
{
    let args: Vec<String> = vec![mode.to_owned()];
    proof {
        let vs = views_of(args@);
        assert(vs =~= seq![mode@]);
        lemma_cmd_line_nul(name@, vs);
    }
    command_line(name, &args)
}

/// Play the next playlist item; no-op on the last item.
pub fn playlist_next_weak() -> (r: Result<String, Error>)
    ensures
        r matches Ok(s) && s@ == cmd_line("playlist-next"@, seq!["weak"@]),
{
    proof {
        reveal_strlit("playlist-next");
        reveal_strlit("weak");
        assert(!contains_nul("playlist-next"@));
        assert(!contains_nul("weak"@));
    }
    playlist_step("playlist-next", "weak")
}

/// Play the next playlist item; ends playback on the last item.
pub fn playlist_next_force() -> (r: Result<String, Error>)
    ensures
        r matches Ok(s) && s@ == cmd_line("playlist-next"@, seq!["force"@]),
{
    proof {
        reveal_strlit("playlist-next");
        reveal_strlit("force");
        assert(!contains_nul("playlist-next"@));
        assert(!contains_nul("force"@));
    }
    playlist_step("playlist-next", "force")
}

/// Play the previous playlist item; no-op on the first item.
pub fn playlist_previous_weak() -> (r: Result<String, Error>)
    ensures
        r matches Ok(s) && s@ == cmd_line("playlist-previous"@, seq!["weak"@]),
{
    proof {
        reveal_strlit("playlist-previous");
        reveal_strlit("weak");
        assert(!contains_nul("playlist-previous"@));
        assert(!contains_nul("weak"@));
    }
    playlist_step("playlist-previous", "weak")
}

/// Play the previous playlist item; ends playback on the first item.
pub fn playlist_previous_force() -> (r: Result<String, Error>)
    ensures
        r matches Ok(s) && s@ == cmd_line("playlist-previous"@, seq!["force"@]),
{
    proof {
        reveal_strlit("playlist-previous");
        reveal_strlit("force");
        assert(!contains_nul("playlist-previous"@));
        assert(!contains_nul("force"@));
    }
    playlist_step("playlist-previous", "force")
}

/// The line that loads one file: quoted path, insertion mode, extra options.
pub fn loadfile_command(path: &str, state: FileState, opts: Option<&str>) -> (r: Result<
    String,
    Error,
>)
    ensures
        (!contains_nul(path@) && !contains_nul(opt_or_empty(opts))) ==> (r matches Ok(s) && s@
            == cmd_line(
            "loadfile"@,
            seq![quoted(path@), file_state_str(state), opt_or_empty(opts)],
        )),
        (contains_nul(path@) || contains_nul(opt_or_empty(opts))) ==> (r matches Err(e) && e@
            == ErrorV::InvalidStringArgument),
{
    let extra: String = match opts {
        Some(o) => o.to_owned(),
        None => String::new(),
    };
    let args: Vec<String> = vec![quoted_arg(path), state.val().to_owned(), extra];
    proof {
        reveal_strlit("loadfile");
        reveal_strlit("replace");
        reveal_strlit("append");
        reveal_strlit("append-play");
        let vs = views_of(args@);
        assert(vs =~= seq![quoted(path@), file_state_str(state), opt_or_empty(opts)]);
        assert(!contains_nul("loadfile"@));
        assert(!contains_nul(file_state_str(state)));
        lemma_contains_nul_quoted(path@);
        lemma_cmd_line_nul("loadfile"@, vs);
    }
    command_line("loadfile", &args)
}

/// Load a playlist file, replacing the current playlist or appending to it.
pub fn playlist_load_list(path: &str, replace: bool) -> (r: Result<String, Error>)
    ensures
        !contains_nul(path@) ==> (r matches Ok(s) && s@ == cmd_line(
            "loadlist"@,
            seq![quoted(path@), if replace { "replace"@ } else { "append"@ }],
        )),
        contains_nul(path@) ==> (r matches Err(e) && e@ == ErrorV::InvalidStringArgument),
{
    let mode: &str = if replace { "replace" } else { "append" };
    let args: Vec<String> = vec![quoted_arg(path), mode.to_owned()];
    proof {
        reveal_strlit("loadlist");
        reveal_strlit("replace");
        reveal_strlit("append");
        let vs = views_of(args@);
        assert(vs =~= seq![quoted(path@), if replace { "replace"@ } else { "append"@ }]);
        assert(!contains_nul("loadlist"@));
        assert(!contains_nul("replace"@));
        assert(!contains_nul("append"@));
        lemma_contains_nul_quoted(path@);
        lemma_cmd_line_nul("loadlist"@, vs);
    }
    command_line("loadlist", &args)
}

/// Remove every playlist item except the current one.
pub fn playlist_clear() -> (r: Result<String, Error>)
    ensures
        r matches Ok(s) && s@ == cmd_line("playlist-clear"@, Seq::empty()),
{
    let args: Vec<String> = Vec::new();
    proof {
        reveal_strlit("playlist-clear");
        assert(views_of(args@) =~= Seq::<Seq<char>>::empty());
        assert(!contains_nul("playlist-clear"@));
        lemma_cmd_line_nul("playlist-clear"@, views_of(args@));
    }
    command_line("playlist-clear", &args)
}

/// Remove the currently selected playlist item.
pub fn playlist_remove_current() -> (r: Result<String, Error>)
    ensures
        r matches Ok(s) && s@ == cmd_line("playlist-remove"@, seq!["current"@]),
{
    let args: Vec<String> = vec![String::from_str("current")];
    proof {
        reveal_strlit("playlist-remove");
        reveal_strlit("current");
        let vs = views_of(args@);
        assert(vs =~= seq!["current"@]);
        assert(!contains_nul("playlist-remove"@));
        assert(!contains_nul("current"@));
        lemma_cmd_line_nul("playlist-remove"@, vs);
    }
    command_line("playlist-remove", &args)
}

/// Remove the playlist item at the given position.
pub fn playlist_remove_index(position: usize) -> (r: Result<String, Error>)
    ensures
        r matches Ok(s) && s@ == cmd_line("playlist-remove"@, seq![dec_digits(position as nat)]),
{
    let args: Vec<String> = vec![usize_to_string(position)];
    proof {
        reveal_strlit("playlist-remove");
        let vs = views_of(args@);
        assert(vs =~= seq![dec_digits(position as nat)]);
        lemma_dec_digits_nul_free(position as nat);
        assert(!contains_nul("playlist-remove"@));
        lemma_cmd_line_nul("playlist-remove"@, vs);
    }
    command_line("playlist-remove", &args)
}

/// Move the item at position `from` to the position of the item at `to`.
pub fn playlist_move(from: usize, to: usize) -> (r: Result<String, Error>)
    ensures
        r matches Ok(s) && s@ == cmd_line(
            "playlist-move"@,
            seq![dec_digits(from as nat), dec_digits(to as nat)],
        ),
{
    let args: Vec<String> = vec![usize_to_string(from), usize_to_string(to)];
    proof {
        reveal_strlit("playlist-move");
        let vs = views_of(args@);
        assert(vs =~= seq![dec_digits(from as nat), dec_digits(to as nat)]);
        lemma_dec_digits_nul_free(from as nat);
        lemma_dec_digits_nul_free(to as nat);
        assert(!contains_nul("playlist-move"@));
        lemma_cmd_line_nul("playlist-move"@, vs);
    }
    command_line("playlist-move", &args)
}

/// Shuffle the playlist.
pub fn playlist_shuffle() -> (r: Result<String, Error>)
    ensures
        r matches Ok(s) && s@ == cmd_line("playlist-shuffle"@, Seq::empty()),
{
    let args: Vec<String> = Vec::new();
    proof {
        reveal_strlit("playlist-shuffle");
        assert(views_of(args@) =~= Seq::<Seq<char>>::empty());
        assert(!contains_nul("playlist-shuffle"@));
        lemma_cmd_line_nul("playlist-shuffle"@, views_of(args@));
    }
    command_line("playlist-shuffle", &args)
}

/// The arguments of a subtitle-add command for a given mode and the optional
/// title and language. A language without a title is not expressible.
pub open spec fn sub_add_args(
    path: Seq<char>,
    mode: Seq<char>,
    title: Option<Seq<char>>,
    lang: Option<Seq<char>>,
) -> Seq<Seq<char>> {
    match (title, lang) {
        (Option::None, _) => seq![quoted(path), mode],
        (Option::Some(t), Option::None) => seq![quoted(path), mode, t],
        (Option::Some(t), Option::Some(l)) => seq![quoted(path), mode, t, l],
    }
}

/// Shared body of the subtitle-add flavours. A language given without a title
/// is a semantically invalid combination and is rejected before anything else.
fn subtitle_add(path: &str, mode: &'static str, title: Option<&str>, lang: Option<&str>) -> (r:
    Result<String, Error>)
    requires
        !contains_nul(mode@),
    ensures
        (title is None && lang is Some) ==> (r matches Err(e) && e@ == ErrorV::InvalidArgument),
        !(title is None && lang is Some) ==> {
            let args = sub_add_args(path@, mode@, opt_view(title), opt_view(lang));
            &&& (!contains_nul(path@) && !contains_nul(opt_or_empty(title)) && !contains_nul(
                opt_or_empty(lang),
            )) ==> (r matches Ok(s) && s@ == cmd_line("sub-add"@, args))
            &&& (contains_nul(path@) || contains_nul(opt_or_empty(title)) || contains_nul(
                opt_or_empty(lang),
            )) ==> (r matches Err(e) && e@ == ErrorV::InvalidStringArgument)
        },
{
    proof {
        reveal_strlit("sub-add");
        assert(!contains_nul("sub-add"@));
        lemma_contains_nul_quoted(path@);
    }
    match (title, lang) {
        (None, None) => {
            let args: Vec<String> = vec![quoted_arg(path), mode.to_owned()];
            proof {
                let vs = views_of(args@);
                assert(vs =~= sub_add_args(path@, mode@, opt_view(title), opt_view(lang)));
                lemma_cmd_line_nul("sub-add"@, vs);
            }
            command_line("sub-add", &args)
        },
        (Some(t), None) => {
            let args: Vec<String> = vec![quoted_arg(path), mode.to_owned(), t.to_owned()];
            proof {
                let vs = views_of(args@);
                assert(vs =~= sub_add_args(path@, mode@, opt_view(title), opt_view(lang)));
                lemma_cmd_line_nul("sub-add"@, vs);
            }
            command_line("sub-add", &args)
        },
        (Some(t), Some(l)) => {
            let args: Vec<String> = vec![
                quoted_arg(path),
                mode.to_owned(),
                t.to_owned(),
                l.to_owned(),
            ];
            proof {
                let vs = views_of(args@);
                assert(vs =~= sub_add_args(path@, mode@, opt_view(title), opt_view(lang)));
                lemma_cmd_line_nul("sub-add"@, vs);
            }
            command_line("sub-add", &args)
        },
        (None, Some(_)) => Err(Error::InvalidArgument),
    }
}

/// Add a subtitle file and select it immediately. Giving a language requires
/// giving a title.
pub fn subtitle_add_select(path: &str, title: Option<&str>, lang: Option<&str>) -> (r: Result<
    String,
    Error,
>)
    ensures
        (title is None && lang is Some) ==> (r matches Err(e) && e@ == ErrorV::InvalidArgument),
        !(title is None && lang is Some) ==> {
            let args = sub_add_args(path@, "select"@, opt_view(title), opt_view(lang));
            &&& (!contains_nul(path@) && !contains_nul(opt_or_empty(title)) && !contains_nul(
                opt_or_empty(lang),
            )) ==> (r matches Ok(s) && s@ == cmd_line("sub-add"@, args))
            &&& (contains_nul(path@) || contains_nul(opt_or_empty(title)) || contains_nul(
                opt_or_empty(lang),
            )) ==> (r matches Err(e) && e@ == ErrorV::InvalidStringArgument)
        },
{
    proof {
        reveal_strlit("select");
        assert(!contains_nul("select"@));
    }
    subtitle_add(path, "select", title, lang)
}

/// Add a subtitle file without selecting it. Giving a language requires
/// giving a title.
pub fn subtitle_add_auto(path: &str, title: Option<&str>, lang: Option<&str>) -> (r: Result<
    String,
    Error,
>)
    ensures
        (title is None && lang is Some) ==> (r matches Err(e) && e@ == ErrorV::InvalidArgument),
        !(title is None && lang is Some) ==> {
            let args = sub_add_args(path@, "auto"@, opt_view(title), opt_view(lang));
            &&& (!contains_nul(path@) && !contains_nul(opt_or_empty(title)) && !contains_nul(
                opt_or_empty(lang),
            )) ==> (r matches Ok(s) && s@ == cmd_line("sub-add"@, args))
            &&& (contains_nul(path@) || contains_nul(opt_or_empty(title)) || contains_nul(
                opt_or_empty(lang),
            )) ==> (r matches Err(e) && e@ == ErrorV::InvalidStringArgument)
        },
{
    proof {
        reveal_strlit("auto");
        assert(!contains_nul("auto"@));
    }
    subtitle_add(path, "auto", title, lang)
}

/// Select a subtitle that was already added for this file, instead of loading
/// a duplicate entry.
pub fn subtitle_add_cached(path: &str) -> (r: Result<String, Error>)
    ensures
        !contains_nul(path@) ==> (r matches Ok(s) && s@ == cmd_line(
            "sub-add"@,
            seq![quoted(path@), "cached"@],
        )),
        contains_nul(path@) ==> (r matches Err(e) && e@ == ErrorV::InvalidStringArgument),
{
    let args: Vec<String> = vec![quoted_arg(path), String::from_str("cached")];
    proof {
        reveal_strlit("sub-add");
        reveal_strlit("cached");
        let vs = views_of(args@);
        assert(vs =~= seq![quoted(path@), "cached"@]);
        assert(!contains_nul("sub-add"@));
        assert(!contains_nul("cached"@));
        lemma_contains_nul_quoted(path@);
        lemma_cmd_line_nul("sub-add"@, vs);
    }
    command_line("sub-add", &args)
}

/// Remove the subtitle track at the index, or the current one.
pub fn subtitle_remove(index: Option<u64>) -> (r: Result<String, Error>)
    ensures
        index matches Some(i) ==> (r matches Ok(s) && s@ == cmd_line(
            "sub-remove"@,
            seq![dec_digits(i as nat)],
        )),
        index is None ==> (r matches Ok(s) && s@ == cmd_line("sub-remove"@, Seq::empty())),
{
    proof {
        reveal_strlit("sub-remove");
        assert(!contains_nul("sub-remove"@));
    }
    match index {
        Some(i) => {
            let args: Vec<String> = vec![u64_to_string(i)];
            proof {
                let vs = views_of(args@);
                assert(vs =~= seq![dec_digits(i as nat)]);
                lemma_dec_digits_nul_free(i as nat);
                lemma_cmd_line_nul("sub-remove"@, vs);
            }
            command_line("sub-remove", &args)
        },
        None => {
            let args: Vec<String> = Vec::new();
            proof {
                assert(views_of(args@) =~= Seq::<Seq<char>>::empty());
                lemma_cmd_line_nul("sub-remove"@, views_of(args@));
            }
            command_line("sub-remove", &args)
        },
    }
}

/// Reload the subtitle track at the index, or the current one.
pub fn subtitle_reload(index: Option<u64>) -> (r: Result<String, Error>)
    ensures
        index matches Some(i) ==> (r matches Ok(s) && s@ == cmd_line(
            "sub-reload"@,
            seq![dec_digits(i as nat)],
        )),
        index is None ==> (r matches Ok(s) && s@ == cmd_line("sub-reload"@, Seq::empty())),
{
    proof {
        reveal_strlit("sub-reload");
        assert(!contains_nul("sub-reload"@));
    }
    match index {
        Some(i) => {
            let args: Vec<String> = vec![u64_to_string(i)];
            proof {
                let vs = views_of(args@);
                assert(vs =~= seq![dec_digits(i as nat)]);
                lemma_dec_digits_nul_free(i as nat);
                lemma_cmd_line_nul("sub-reload"@, vs);
            }
            command_line("sub-reload", &args)
        },
        None => {
            let args: Vec<String> = Vec::new();
            proof {
                assert(views_of(args@) =~= Seq::<Seq<char>>::empty());
                lemma_cmd_line_nul("sub-reload"@, views_of(args@));
            }
            command_line("sub-reload", &args)
        },
    }
}

/// Change subtitle timing so that the event after the given number of events
/// is displayed; negative steps backwards.
pub fn subtitle_step(skip: i64) -> (r: Result<String, Error>)
    ensures
        r matches Ok(s) && s@ == cmd_line("sub-step"@, seq![dec_int(skip as int)]),
{
    let args: Vec<String> = vec![i64_to_string(skip)];
    proof {
        reveal_strlit("sub-step");
        let vs = views_of(args@);
        assert(vs =~= seq![dec_int(skip as int)]);
        lemma_dec_int_nul_free(skip as int);
        assert(!contains_nul("sub-step"@));
        lemma_cmd_line_nul("sub-step"@, vs);
    }
    command_line("sub-step", &args)
}

/// Seek to the next subtitle, moving video and audio along.
pub fn subtitle_seek_forward() -> (r: Result<String, Error>)
    ensures
        r matches Ok(s) && s@ == cmd_line("sub-seek"@, seq!["1"@]),
{
    let args: Vec<String> = vec![String::from_str("1")];
    proof {
        reveal_strlit("sub-seek");
        reveal_strlit("1");
        let vs = views_of(args@);
        assert(vs =~= seq!["1"@]);
        assert(!contains_nul("sub-seek"@));
        assert(!contains_nul("1"@));
        lemma_cmd_line_nul("sub-seek"@, vs);
    }
    command_line("sub-seek", &args)
}

/// Seek to the previous subtitle, moving video and audio along.
pub fn subtitle_seek_backward() -> (r: Result<String, Error>)
    ensures
        r matches Ok(s) && s@ == cmd_line("sub-seek"@, seq!["-1"@]),
{
    let args: Vec<String> = vec![String::from_str("-1")];
    proof {
        reveal_strlit("sub-seek");
        reveal_strlit("-1");
        let vs = views_of(args@);
        assert(vs =~= seq!["-1"@]);
        assert(!contains_nul("sub-seek"@));
        assert(!contains_nul("-1"@));
        lemma_cmd_line_nul("sub-seek"@, vs);
    }
    command_line("sub-seek", &args)
}

} // verus!
