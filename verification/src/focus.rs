//! Recognition of the foreground window: the Codex (or ChatGPT) desktop app,
//! the dock's own panel, or anything else.
use crate::layout::{Focus, PanelLayout, PanelStep};
use std::path::Path;
use vstd::prelude::*;

verus! {

/// What the dock reads of the foreground window.
pub struct ForegroundWindow {
    /// The application name reported by the system.
    pub app_name: String,
    /// The path of the window's process executable, as text.
    pub process_path: String,
}

/// A character with the Unicode `White_Space` property.
pub open spec fn is_white_space(c: char) -> bool {
    let u = c as u32;
    ||| 0x09 <= u <= 0x0d
    ||| u == 0x20
    ||| u == 0x85
    ||| u == 0xa0
    ||| u == 0x1680
    ||| 0x2000 <= u <= 0x200a
    ||| u == 0x2028
    ||| u == 0x2029
    ||| u == 0x202f
    ||| u == 0x205f
    ||| u == 0x3000
}

/// The text without its leading white space.
pub open spec fn trim_start(s: Seq<char>) -> Seq<char>
    decreases s.len(),
{
    if s.len() > 0 && is_white_space(s[0]) {
        trim_start(s.drop_first())
    } else {
        s
    }
}

/// The text without its trailing white space.
pub open spec fn trim_end(s: Seq<char>) -> Seq<char>
    decreases s.len(),
{
    if s.len() > 0 && is_white_space(s.last()) {
        trim_end(s.drop_last())
    } else {
        s
    }
}

/// The text without its leading and trailing white space.
pub open spec fn trimmed(s: Seq<char>) -> Seq<char> {
    trim_end(trim_start(s))
}

/// An ASCII upper-case letter mapped to its lower-case letter; any other
/// character unchanged.
pub open spec fn ascii_lower(c: char) -> char {
    if 'A' as u32 <= c as u32 <= 'Z' as u32 {
        ((c as u32) + 32) as char
    } else {
        c
    }
}

/// The text with every ASCII upper-case letter made lower-case.
pub open spec fn ascii_lowercase(s: Seq<char>) -> Seq<char> {
    s.map_values(|c: char| ascii_lower(c))
}

/// Calls `str::trim`, which removes leading and trailing characters with the
/// Unicode `White_Space` property.
#[verifier::external_body]
fn trim_white_space(text: &str) -> (trimmed_text: &str)
    ensures
        trimmed_text@ == trimmed(text@),
{
    text.trim()
}

/// Calls `str::to_ascii_lowercase`, which maps `A`..=`Z` to `a`..=`z` and
/// keeps every other character.
#[verifier::external_body]
fn lowercase_ascii(text: &str) -> (lowered: String)
    ensures
        lowered@ == ascii_lowercase(text@),
{
    text.to_ascii_lowercase()
}

/// A path on which every platform splits into the same components: no
/// backslash, no `:` (so no Windows drive or device prefix) and no leading `//` (so no
/// UNC prefix). Such a path is a list of `/`-separated components.
pub open spec fn is_portable_path(path: Seq<char>) -> bool {
    &&& !path.contains('\\')
    &&& !path.contains(':')
    &&& !(path.len() >= 2 && path[0] == '/' && path[1] == '/')
}

/// A piece of text between separators names a component: it is neither
/// empty (repeated or trailing separators) nor `.` (normalized away).
pub open spec fn names_component(piece: Seq<char>) -> bool {
    piece.len() != 0 && piece != seq!['.']
}

/// The last component of `path` followed by the text `piece`, reading
/// `path` backwards; `None` when there is none (a path of separators and `.`
/// only, such as `/`, `.` or the empty path).
pub open spec fn last_component_from(path: Seq<char>, piece: Seq<char>) -> Option<Seq<char>>
    decreases path.len(),
{
    if path.len() == 0 {
        if names_component(piece) {
            Some(piece)
        } else {
            None
        }
    } else if path.last() == '/' {
        if names_component(piece) {
            Some(piece)
        } else {
            last_component_from(path.drop_last(), Seq::empty())
        }
    } else {
        last_component_from(path.drop_last(), seq![path.last()] + piece)
    }
}

/// The file name of a portable path: its last component, unless that is `..`.
pub open spec fn portable_file_name(path: Seq<char>) -> Option<Seq<char>> {
    match last_component_from(path, Seq::empty()) {
        Some(name) => if name == seq!['.', '.'] {
            None
        } else {
            Some(name)
        },
        None => None,
    }
}

/// Index of the last `.` in `name`, or -1 when it has none.
pub open spec fn last_dot(name: Seq<char>) -> int
    decreases name.len(),
{
    if name.len() == 0 {
        -1
    } else if name.last() == '.' {
        name.len() - 1
    } else {
        last_dot(name.drop_last())
    }
}

/// The stem of a file name: the whole name when it has no `.` or its only
/// `.` is its first character, else the part before its last `.`.
pub open spec fn stem_of_name(name: Seq<char>) -> Seq<char> {
    if last_dot(name) <= 0 {
        name
    } else {
        name.subrange(0, last_dot(name))
    }
}

/// The file stem of a portable path.
pub open spec fn portable_file_stem(path: Seq<char>) -> Option<Seq<char>> {
    match portable_file_name(path) {
        Some(name) => Some(stem_of_name(name)),
        None => None,
    }
}

/// The stem text that the dock compares for a portable path: its file stem,
/// or the empty text when it has none.
pub open spec fn portable_stem_text(path: Seq<char>) -> Seq<char> {
    match portable_file_stem(path) {
        Some(stem) => stem,
        None => Seq::empty(),
    }
}

/// Calls `Path::file_stem` on the process path, converting the path and the
/// stem between `str` and `Path`. Path parsing depends on the platform; on a
/// portable path (see `is_portable_path`) every platform reads the same
/// components, and the stem is as `std::path` documents it: the final
/// component unless it is `..`, with `.` components normalized away and
/// repeated separators ignored, cut before its last `.` unless that `.` is
/// its first character. On other paths nothing is claimed.
#[verifier::external_body]
fn process_file_stem(path: &str) -> (stem: Option<&str>)
    ensures
        is_portable_path(path@) ==> match stem {
            Some(s) => portable_file_stem(path@) == Some(s@),
            None => portable_file_stem(path@) is None,
        },
{
    match Path::new(path).file_stem() {
        Some(stem) => stem.to_str(),
        None => None,
    }
}

/// How the dock compares an application name: trimmed, ASCII lower-case.
pub open spec fn normalized_app_name(app_name: Seq<char>) -> Seq<char> {
    ascii_lowercase(trimmed(app_name))
}

/// A normalized name of the Codex desktop app.
pub open spec fn is_codex_name(name: Seq<char>) -> bool {
    name == "codex"@ || name == "chatgpt"@
}

/// The names identify the Codex desktop app: the normalized application name,
/// or the ASCII lower-case process stem, is `codex` or `chatgpt`.
pub open spec fn names_codex(app_name: Seq<char>, process_stem: Seq<char>) -> bool {
    is_codex_name(normalized_app_name(app_name)) || is_codex_name(ascii_lowercase(process_stem))
}

/// The names identify the dock's own panel: the normalized application name is
/// `codex usage dock`, or the lower-case process stem is `codex-usage-dock` or
/// `codex_usage_dock`.
pub open spec fn names_own_panel(app_name: Seq<char>, process_stem: Seq<char>) -> bool {
    ||| normalized_app_name(app_name) == "codex usage dock"@
    ||| ascii_lowercase(process_stem) == "codex-usage-dock"@
    ||| ascii_lowercase(process_stem) == "codex_usage_dock"@
}

fn normalize_app_name(app_name: &str) -> (normalized: String)
    ensures
        normalized@ == normalized_app_name(app_name@),
{
    lowercase_ascii(trim_white_space(app_name))
}

fn equals_text(text: &String, expected: &str) -> (equal: bool)
    ensures
        equal == (text@ == expected@),
{
    let expected = String::from_str(expected);
    *text == expected
}

/// Whether the application name and process stem are those of the Codex app.
pub fn is_codex_names(app_name: &str, process_stem: &str) -> (codex: bool)
    ensures
        codex == names_codex(app_name@, process_stem@),
{
    let app = normalize_app_name(app_name);
    let process = lowercase_ascii(process_stem);
    equals_text(&app, "codex") || equals_text(&app, "chatgpt") || equals_text(&process, "codex")
        || equals_text(&process, "chatgpt")
}

/// Whether the application name and process stem are those of the dock itself.
pub fn is_own_names(app_name: &str, process_stem: &str) -> (own: bool)
    ensures
        own == names_own_panel(app_name@, process_stem@),
{
    let app = normalize_app_name(app_name);
    let process = lowercase_ascii(process_stem);
    equals_text(&app, "codex usage dock") || equals_text(&process, "codex-usage-dock")
        || equals_text(&process, "codex_usage_dock")
}

/// The process stem as the dock compares it: the stem read from the path,
/// or the empty text when none could be read.
fn stem_or_empty<'a>(stem: Option<&'a str>) -> (text: &'a str)
    ensures
        text@ == match stem {
            Some(s) => s@,
            None => Seq::<char>::empty(),
        },
{
    proof {
        reveal_strlit("");
    }
    match stem {
        Some(s) => s,
        None => "",
    }
}

/// Whether the foreground window belongs to the Codex desktop app: the answer
/// of `is_codex_names` for the window's application name and process stem
/// (the empty text when the path has none). On a portable path that stem is
/// stated exactly; on any path a Codex application name suffices.
pub fn is_codex_window(window: &ForegroundWindow) -> (codex: bool)
    ensures
        is_portable_path(window.process_path@) ==> codex == names_codex(
            window.app_name@,
            portable_stem_text(window.process_path@),
        ),
        is_codex_name(normalized_app_name(window.app_name@)) ==> codex,
{
    let stem = stem_or_empty(process_file_stem(window.process_path.as_str()));
    is_codex_names(window.app_name.as_str(), stem)
}

/// Whether the foreground window is the dock's own panel: the answer of
/// `is_own_names` for the window's application name and process stem (the
/// empty text when the path has none). On a portable path that stem is stated
/// exactly; on any path the dock's application name suffices.
pub fn is_own_window(window: &ForegroundWindow) -> (own: bool)
    ensures
        is_portable_path(window.process_path@) ==> own == names_own_panel(
            window.app_name@,
            portable_stem_text(window.process_path@),
        ),
        normalized_app_name(window.app_name@) == "codex usage dock"@ ==> own,
{
    let stem = stem_or_empty(process_file_stem(window.process_path.as_str()));
    is_own_names(window.app_name.as_str(), stem)
}

/// The focus that a window with these names stands for: the dock's own panel
/// first, then the Codex app (over `bounds`), else elsewhere.
pub open spec fn focus_for_names<B>(app_name: Seq<char>, process_stem: Seq<char>, bounds: B) -> Focus<B> {
    if names_own_panel(app_name, process_stem) {
        Focus::OwnPanel
    } else if names_codex(app_name, process_stem) {
        Focus::Codex(bounds)
    } else {
        Focus::Elsewhere
    }
}

/// What a window with these names, whose bounds are `bounds`, stands for
/// (see `focus_for_names`): the dock's own panel first, then Codex.
pub fn focus_for<B>(app_name: &str, process_stem: &str, bounds: B) -> (focus: Focus<B>)
    ensures
        focus == focus_for_names(app_name@, process_stem@, bounds),
{
    if is_own_names(app_name, process_stem) {
        Focus::OwnPanel
    } else if is_codex_names(app_name, process_stem) {
        Focus::Codex(bounds)
    } else {
        Focus::Elsewhere
    }
}

/// What the foreground window, whose bounds are `bounds`, stands for: the
/// answer of `focus_for` for the window's application name and process stem
/// (the empty text when the path has none). On a portable path that stem is
/// stated exactly; on any path the dock's application name gives the panel,
/// so the dock is never taken for Codex.
pub fn focus_of<B>(window: &ForegroundWindow, bounds: B) -> (focus: Focus<B>)
    ensures
        is_portable_path(window.process_path@) ==> focus == focus_for_names(
            window.app_name@,
            portable_stem_text(window.process_path@),
            bounds,
        ),
        normalized_app_name(window.app_name@) == "codex usage dock"@ ==> focus == Focus::<B>::OwnPanel,
{
    let stem = stem_or_empty(process_file_stem(window.process_path.as_str()));
    focus_for(window.app_name.as_str(), stem, bounds)
}

/// The dock's own panel is never taken for Codex: when either its application
/// name or its process stem is the dock's, the focus is the panel, whatever the
/// other says.
pub proof fn lemma_own_panel_comes_first<B>(app_name: Seq<char>, process_stem: Seq<char>, bounds: B)
    requires
        names_own_panel(app_name, process_stem),
    ensures
        focus_for_names(app_name, process_stem, bounds) == Focus::<B>::OwnPanel,
{
}

/// The panel hides when another application is in front: a window whose
/// names are neither the dock's nor Codex's makes the tracker hide the panel,
/// whatever the layout state.
pub proof fn lemma_other_application_hides_panel<B, O>(
    layout: PanelLayout<B, O>,
    app_name: Seq<char>,
    process_stem: Seq<char>,
    bounds: B,
)
    requires
        !names_own_panel(app_name, process_stem),
        !names_codex(app_name, process_stem),
    ensures
        layout.after_poll(focus_for_names(app_name, process_stem, bounds)) == (
            layout,
            PanelStep::<B, O>::Hide,
        ),
{
}

} // verus!
