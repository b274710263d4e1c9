//! Where the dock looks for the `codex` binary that runs the App Server.
use vstd::prelude::*;

verus! {

/// The operating system the dock runs on.
#[derive(Debug, Clone, Copy, PartialEq, Eq, Structural)]
pub enum Platform {
    MacOs,
    Windows,
    Other,
}

/// The places where the desktop apps install the binary, in the order tried.
/// Each is a list of path components: on macOS an absolute path, on Windows
/// components below the local application data directory. Other platforms
/// have none.
pub open spec fn install_candidates_of(platform: Platform) -> Seq<Seq<Seq<char>>> {
    match platform {
        Platform::MacOs => seq![
            seq!["/Applications/ChatGPT.app/Contents/Resources/codex"@],
            seq!["/Applications/Codex.app/Contents/Resources/codex"@],
        ],
        Platform::Windows => seq![
            seq!["Programs"@, "ChatGPT"@, "resources"@, "codex.exe"@],
            seq!["Programs"@, "ChatGPT"@, "codex.exe"@],
            seq!["OpenAI"@, "ChatGPT"@, "resources"@, "codex.exe"@],
        ],
        Platform::Other => seq![],
    }
}

/// The texts of a list of components.
pub open spec fn component_texts(components: Seq<&str>) -> Seq<Seq<char>> {
    components.map_values(|c: &str| c@)
}

/// The binary name looked up on the search path when no installation is found.
pub open spec fn fallback_binary_of(platform: Platform) -> Seq<char> {
    match platform {
        Platform::Windows => "codex.exe"@,
        _ => "codex"@,
    }
}

fn components(parts: &[&'static str]) -> (list: Vec<&'static str>)
    ensures
        list@ == parts@,
{
    let mut list: Vec<&'static str> = Vec::new();
    let mut i: usize = 0;
    while i < parts.len()
        invariant
            0 <= i <= parts.len(),
            list@ == parts@.subrange(0, i as int),
        decreases parts.len() - i,
    {
        list.push(parts[i]);
        i = i + 1;
    }
    list
}

/// The installation places to try on `platform`, in order (see
/// `install_candidates_of`).
pub fn install_candidates(platform: Platform) -> (candidates: Vec<Vec<&'static str>>)
    ensures
        candidates@.len() == install_candidates_of(platform).len(),
        forall|i: int|
            0 <= i < candidates@.len() ==> component_texts(#[trigger] candidates@[i]@)
                == install_candidates_of(platform)[i],
{
    let mut candidates: Vec<Vec<&'static str>> = Vec::new();
    match platform {
        Platform::MacOs => {
            candidates.push(components(&["/Applications/ChatGPT.app/Contents/Resources/codex"]));
            candidates.push(components(&["/Applications/Codex.app/Contents/Resources/codex"]));
        },
        Platform::Windows => {
            candidates.push(components(&["Programs", "ChatGPT", "resources", "codex.exe"]));
            candidates.push(components(&["Programs", "ChatGPT", "codex.exe"]));
            candidates.push(components(&["OpenAI", "ChatGPT", "resources", "codex.exe"]));
        },
        Platform::Other => {},
    }
    assert forall|i: int| 0 <= i < candidates@.len() implies component_texts(
        #[trigger] candidates@[i]@,
    ) == install_candidates_of(platform)[i] by {
        assert(component_texts(candidates@[i]@) =~= install_candidates_of(platform)[i]);
    }
    candidates
}

/// The binary name to fall back on (see `fallback_binary_of`).
pub fn fallback_binary(platform: Platform) -> (name: &'static str)
    ensures
        name@ == fallback_binary_of(platform),
{
    match platform {
        Platform::Windows => "codex.exe",
        _ => "codex",
    }
}

/// The binary the dock runs: the path given by the user if any, else the
/// first installation place that exists, else the fallback name.
pub open spec fn chosen_binary<P>(user_path: Option<P>, probed: Seq<(P, bool)>, fallback: P) -> P
    decreases probed.len(),
{
    match user_path {
        Some(path) => path,
        None => if probed.len() == 0 {
            fallback
        } else if probed[0].1 {
            probed[0].0
        } else {
            chosen_binary(None, probed.drop_first(), fallback)
        },
    }
}

/// Chooses the binary to run (see `chosen_binary`). `probed` holds each
/// installation place, in order, with whether a file exists there.
pub fn choose_codex_binary<P>(user_path: Option<P>, probed: Vec<(P, bool)>, fallback: P) -> (binary: P)
    ensures
        binary == chosen_binary(user_path, probed@, fallback),
{
    if let Some(path) = user_path {
        return path;
    }
    let ghost all = probed@;
    let mut rest = probed;
    while rest.len() > 0
        invariant
            user_path is None,
            all == probed@,
            chosen_binary(None, all, fallback) == chosen_binary(None, rest@, fallback),
        decreases rest@.len(),
    {
        let ghost before = rest@;
        let (path, exists) = rest.remove(0);
        proof {
            assert(rest@ =~= before.drop_first());
            assert(before[0] == (path, exists));
        }
        if exists {
            return path;
        }
    }
    fallback
}

/// The user's path always wins; without one, the binary is the first probed
/// place that exists, and the fallback name is used only when none exists.
pub proof fn lemma_first_existing_place_wins<P>(
    user_path: Option<P>,
    probed: Seq<(P, bool)>,
    fallback: P,
    i: int,
)
    ensures
        user_path matches Some(path) ==> chosen_binary(user_path, probed, fallback) == path,
        user_path is None && 0 <= i < probed.len() && probed[i].1 && (forall|k: int|
            0 <= k < i ==> !probed[k].1) ==> chosen_binary(user_path, probed, fallback)
            == probed[i].0,
        user_path is None && (forall|k: int| 0 <= k < probed.len() ==> !probed[k].1)
            ==> chosen_binary(user_path, probed, fallback) == fallback,
    decreases probed.len(),
{
    if user_path is None && probed.len() > 0 && !probed[0].1 {
        let rest = probed.drop_first();
        lemma_first_existing_place_wins(user_path, rest, fallback, i - 1);
        assert forall|k: int| 0 <= k < rest.len() implies rest[k] == probed[k + 1] by {}
        if 0 <= i < probed.len() && probed[i].1 && (forall|k: int| 0 <= k < i ==> !probed[k].1) {
            assert(i > 0);
            assert forall|k: int| 0 <= k < i - 1 implies !rest[k].1 by {
                assert(!probed[k + 1].1);
            }
        }
        if forall|k: int| 0 <= k < probed.len() ==> !probed[k].1 {
            assert forall|k: int| 0 <= k < rest.len() implies !rest[k].1 by {
                assert(!probed[k + 1].1);
            }
        }
    }
}

} // verus!
