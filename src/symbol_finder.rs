use vstd::prelude::*;
use crate::macho::{dsym_matches_spec, first_uuid, macho_image, MachContainer, MachoAnalyzer};
use crate::text::{ascii_lower, eq_ignore_case, same_ignoring_case, text_views};
use crate::paths::{
    opt_view,
    file_name_of, is_directory, is_regular_file, join_of, parent_of, path_file_name, path_join,
    path_parent, path_with_file_name, with_file_name_of,
};

verus! {

/// Locates separate debug information for one binary, by the conventions
/// that toolchains use to name and place it.
pub struct SymbolFinder {
    binary_path: String,
}

/// The index of the first `true` among `present`, within `n` entries.
pub open spec fn first_true(present: Seq<bool>, n: int) -> Option<int> {
    if exists|i: int| 0 <= i < n && present[i] && forall|j: int| 0 <= j < i ==> !present[j] {
        Some(choose|i: int| 0 <= i < n && present[i] && forall|j: int| 0 <= j < i ==> !present[j])
    } else {
        None
    }
}

/// The first candidate whose probe answered `true`.
pub open spec fn first_present(cands: Seq<Seq<char>>, present: Seq<bool>) -> Option<Seq<char>> {
    match first_true(present, if cands.len() < present.len() { cands.len() as int } else { present.len() as int }) {
        Some(i) => Some(cands[i]),
        None => None,
    }
}

/// Whether `r` is what probing `cands` can give: the first candidate found
/// present, for some outcome of the probes.
pub open spec fn probe_result(cands: Seq<Seq<char>>, r: Option<Seq<char>>) -> bool {
    exists|present: Seq<bool>| present.len() == cands.len() && r == #[trigger] first_present(cands, present)
}

/// The first of three lookups in order that found something.
pub open spec fn first_of3(
    x: Option<Seq<char>>,
    y: Option<Seq<char>>,
    z: Option<Seq<char>>,
) -> Option<Seq<char>> {
    if x is Some {
        x
    } else if y is Some {
        y
    } else {
        z
    }
}

/// The local debug file lookup for an ELF binary: by build identifier, then
/// by debug-link name, then beside the binary; the first strategy that finds
/// a file wins.
pub open spec fn local_debug_choice(
    bin: Seq<char>,
    build_id: Option<Seq<char>>,
    link: Option<Seq<char>>,
    r: Option<Seq<char>>,
) -> bool {
    exists|x: Option<Seq<char>>, y: Option<Seq<char>>, z: Option<Seq<char>>|
        #![trigger first_of3(x, y, z)]
        {
            &&& match build_id {
                Some(b) => if b.len() >= 3 { probe_result(build_id_paths(b), x) } else { x is None },
                None => x is None,
            }
            &&& match link {
                Some(l) => probe_result(debuglink_paths(bin, l), y),
                None => y is None,
            }
            &&& probe_result(adjacent_debug_paths(bin), z)
            &&& r == first_of3(x, y, z)
        }
}

/// The result of the first lookup that found something.
pub fn first_found(by_id: Option<String>, by_link: Option<String>, adjacent: Option<String>) -> (r: Option<String>)
    ensures
        r == (if by_id is Some { by_id } else if by_link is Some { by_link } else { adjacent }),
        opt_view(r) == first_of3(opt_view(by_id), opt_view(by_link), opt_view(adjacent)),
{
    if by_id.is_some() {
        by_id
    } else if by_link.is_some() {
        by_link
    } else {
        adjacent
    }
}

/// The four conventional places of a debug file named by build identifier:
/// the first two characters name a directory, the rest the file.
pub open spec fn build_id_paths(id: Seq<char>) -> Seq<Seq<char>> {
    let pre = id.subrange(0, 2);
    let suf = id.subrange(2, id.len() as int);
    seq![
        "/usr/lib/debug/.build-id/"@ + pre + "/"@ + suf + ".debug"@,
        "/usr/lib/debug/.build-id/"@ + pre + "/"@ + suf,
        "/lib/debug/.build-id/"@ + pre + "/"@ + suf + ".debug"@,
        "/lib/debug/.build-id/"@ + pre + "/"@ + suf,
    ]
}

/// Where a debug-link name is looked for: beside the binary, in a `.debug`
/// directory beside it, and, for an absolute binary path, in its mirror
/// under `/usr/lib/debug`.
pub open spec fn debuglink_paths(bin: Seq<char>, link: Seq<char>) -> Seq<Seq<char>> {
    match parent_of(bin) {
        None => Seq::empty(),
        Some(parent) => {
            let near = seq![join_of(parent, link), join_of(join_of(parent, ".debug"@), link)];
            if bin.len() > 0 && bin[0] == '/' {
                near.push(with_file_name_of("/usr/lib/debug"@ + bin, link))
            } else {
                near
            }
        },
    }
}

/// `<name>.debug` beside the binary, then `<name>` in a `.debug` directory
/// beside it.
pub open spec fn adjacent_debug_paths(bin: Seq<char>) -> Seq<Seq<char>> {
    match (parent_of(bin), file_name_of(bin)) {
        (Some(parent), Some(name)) => seq![
            join_of(parent, name + ".debug"@),
            join_of(join_of(parent, ".debug"@), name),
        ],
        _ => Seq::empty(),
    }
}

/// `<name>.dSYM` beside the binary.
pub open spec fn adjacent_dsym_paths(bin: Seq<char>) -> Seq<Seq<char>> {
    match (parent_of(bin), file_name_of(bin)) {
        (Some(parent), Some(name)) => seq![join_of(parent, name + ".dSYM"@)],
        _ => Seq::empty(),
    }
}

/// The first candidate whose probe answered `true`, in candidate order.
pub fn select_first(candidates: &Vec<String>, present: &Vec<bool>) -> (r: Option<String>)
    ensures
        match first_present(text_views(candidates@), present@) {
            Some(p) => r matches Some(s) && s@ == p,
            None => r is None,
        },
        opt_view(r) == first_present(text_views(candidates@), present@),
{
    let n = if candidates.len() < present.len() { candidates.len() } else { present.len() };
    let mut i: usize = 0;
    while i < n
        invariant
            n <= candidates.len(),
            n <= present.len(),
            n as int == (if candidates@.len() < present@.len() { candidates@.len() as int } else { present@.len() as int }),
            i <= n,
            forall|j: int| 0 <= j < i ==> !present@[j],
        decreases n - i,
    {
        if present[i] {
            proof {
                let k = choose|k: int| 0 <= k < n && present@[k] && forall|j: int| 0 <= j < k ==> !present@[j];
                assert(k == i) by {
                    if k > i {
                        assert(present@[i as int]);
                    }
                }
            }
            return Some(candidates[i].clone());
        }
        i = i + 1;
    }
    None
}

fn concat(a: &str, b: &str) -> (r: String)
    ensures
        r@ == a@ + b@,
{
    let mut s = String::from_str(a);
    s.append(b);
    s
}

fn probe_files(cands: &Vec<String>) -> (r: Vec<bool>)
    ensures
        r@.len() == cands@.len(),
{
    let mut present: Vec<bool> = Vec::new();
    let mut i: usize = 0;
    while i < cands.len()
        invariant
            i <= cands.len(),
            present@.len() == i,
        decreases cands.len() - i,
    {
        present.push(is_regular_file(cands[i].as_str()));
        i = i + 1;
    }
    present
}

impl SymbolFinder {
    pub closed spec fn spec_binary_path(&self) -> Seq<char> {
        self.binary_path@
    }

    pub fn new(binary_path: &str) -> (r: SymbolFinder)
        ensures
            r.spec_binary_path() == binary_path@,
    {
        SymbolFinder { binary_path: String::from_str(binary_path) }
    }

    /// The candidate paths for a build identifier of at least three
    /// characters, in probing order.
    pub fn build_id_candidates(&self, build_id: &str) -> (r: Vec<String>)
        requires
            build_id@.len() >= 3,
        ensures
            text_views(r@) == build_id_paths(build_id@),
    {
        let n = build_id.unicode_len();
        let pre = build_id.substring_char(0, 2);
        let suf = build_id.substring_char(2, n);
        let usr = concat("/usr/lib/debug/.build-id/", pre);
        let usr = concat(usr.as_str(), "/");
        let usr_plain = concat(usr.as_str(), suf);
        let usr_debug = concat(usr_plain.as_str(), ".debug");
        let lib = concat("/lib/debug/.build-id/", pre);
        let lib = concat(lib.as_str(), "/");
        let lib_plain = concat(lib.as_str(), suf);
        let lib_debug = concat(lib_plain.as_str(), ".debug");
        let r = vec![usr_debug, usr_plain, lib_debug, lib_plain];
        assert(text_views(r@) =~= build_id_paths(build_id@));
        r
    }

    /// Looks for a regular file named after the build identifier under the
    /// system debug directories. Identifiers shorter than three characters
    /// find nothing.
    pub fn find_by_build_id(&self, build_id: &str) -> (r: Option<String>)
        ensures
            build_id@.len() < 3 ==> r is None,
            r matches Some(p) ==> build_id@.len() >= 3 && build_id_paths(build_id@).contains(p@),
            build_id@.len() >= 3 ==> probe_result(build_id_paths(build_id@), opt_view(r)),
    {
        if build_id.unicode_len() < 3 {
            return None;
        }
        let cands = self.build_id_candidates(build_id);
        let present = probe_files(&cands);
        let r = select_first(&cands, &present);
        proof { lemma_selected_is_candidate(text_views(cands@), present@); }
        r
    }

    /// The candidate paths for a debug-link name, in probing order.
    pub fn debuglink_candidates(&self, debuglink: &str) -> (r: Vec<String>)
        ensures
            text_views(r@) == debuglink_paths(self.spec_binary_path(), debuglink@),
    {
        let mut r: Vec<String> = Vec::new();
        match path_parent(self.binary_path.as_str()) {
            None => {
                assert(text_views(r@) =~= debuglink_paths(self.binary_path@, debuglink@));
            },
            Some(parent) => {
                r.push(path_join(parent.as_str(), debuglink));
                let sub = path_join(parent.as_str(), ".debug");
                r.push(path_join(sub.as_str(), debuglink));
                let bin = self.binary_path.as_str();
                if bin.unicode_len() > 0 && bin.get_char(0) == '/' {
                    let mirror = concat("/usr/lib/debug", bin);
                    r.push(path_with_file_name(mirror.as_str(), debuglink));
                }
                assert(text_views(r@) =~= debuglink_paths(self.binary_path@, debuglink@));
            },
        }
        r
    }

    /// Looks for the debug-link file beside the binary, in a `.debug`
    /// directory beside it, then under `/usr/lib/debug`.
    pub fn find_by_debuglink(&self, debuglink: &str) -> (r: Option<String>)
        ensures
            r matches Some(p) ==> debuglink_paths(self.spec_binary_path(), debuglink@).contains(p@),
            probe_result(debuglink_paths(self.spec_binary_path(), debuglink@), opt_view(r)),
    {
        let cands = self.debuglink_candidates(debuglink);
        let present = probe_files(&cands);
        let r = select_first(&cands, &present);
        proof { lemma_selected_is_candidate(text_views(cands@), present@); }
        r
    }

    /// The candidate paths beside the binary: `.debug` files when
    /// `debug_suffix` holds, else the `.dSYM` bundle.
    pub fn adjacent_candidates(&self, debug_suffix: bool) -> (r: Vec<String>)
        ensures
            text_views(r@) == (if debug_suffix { adjacent_debug_paths(self.spec_binary_path()) } else { adjacent_dsym_paths(self.spec_binary_path()) }),
    {
        let mut r: Vec<String> = Vec::new();
        let parent = path_parent(self.binary_path.as_str());
        let name = path_file_name(self.binary_path.as_str());
        match (parent, name) {
            (Some(parent), Some(name)) => {
                if debug_suffix {
                    let file = concat(name.as_str(), ".debug");
                    r.push(path_join(parent.as_str(), file.as_str()));
                    let sub = path_join(parent.as_str(), ".debug");
                    r.push(path_join(sub.as_str(), name.as_str()));
                } else {
                    let bundle = concat(name.as_str(), ".dSYM");
                    r.push(path_join(parent.as_str(), bundle.as_str()));
                }
            },
            _ => {},
        }
        assert(text_views(r@) =~= (if debug_suffix { adjacent_debug_paths(self.binary_path@) } else { adjacent_dsym_paths(self.binary_path@) }));
        r
    }

    /// Looks for `<name>.debug` beside the binary, then in a `.debug`
    /// directory beside it.
    pub fn find_adjacent_debug(&self) -> (r: Option<String>)
        ensures
            r matches Some(p) ==> adjacent_debug_paths(self.spec_binary_path()).contains(p@),
            probe_result(adjacent_debug_paths(self.spec_binary_path()), opt_view(r)),
    {
        let cands = self.adjacent_candidates(true);
        let present = probe_files(&cands);
        let r = select_first(&cands, &present);
        proof { lemma_selected_is_candidate(text_views(cands@), present@); }
        r
    }

    /// Looks for a `<name>.dSYM` directory beside the binary.
    pub fn find_adjacent_dsym(&self) -> (r: Option<String>)
        ensures
            r matches Some(p) ==> adjacent_dsym_paths(self.spec_binary_path()).contains(p@),
            probe_result(adjacent_dsym_paths(self.spec_binary_path()), opt_view(r)),
    {
        let cands = self.adjacent_candidates(false);
        let mut present: Vec<bool> = Vec::new();
        if cands.len() > 0 {
            present.push(is_directory(cands[0].as_str()));
        }
        assert(present@.len() == cands@.len());
        let r = select_first(&cands, &present);
        proof { lemma_selected_is_candidate(text_views(cands@), present@); }
        r
    }
}

/// Whether the UUID read from a dSYM's debug file names the expected UUID,
/// compared without regard to ASCII case. A missing UUID never matches.
pub fn uuid_matches(found: &Option<String>, expected: &str) -> (r: bool)
    ensures
        r == (found matches Some(u) && eq_ignore_case(u@, expected@)),
{
    match found {
        Some(u) => same_ignoring_case(u.as_str(), expected),
        None => false,
    }
}

/// Whether the debug file inside a dSYM bundle carries the expected UUID.
/// Only a single-architecture image is read; a fat container, an image that
/// does not parse, or one without a UUID command does not match.
pub fn dsym_uuid_matches(dwarf_file: &[u8], expected: &str) -> (r: bool)
    ensures
        r == dsym_matches_spec(dwarf_file@, expected@),
{
    match MachoAnalyzer::container_of(dwarf_file) {
        Some(MachContainer::Single) => match macho_image(dwarf_file) {
            Some((_, _, _, _, cmds)) => {
                let found = first_uuid(&cmds);
                uuid_matches(&found, expected)
            },
            None => false,
        },
        _ => false,
    }
}

/// Where exactly one candidate is present, that candidate is the one
/// selected; where none is, nothing is.
pub proof fn lemma_single_present_selected(cands: Seq<Seq<char>>, present: Seq<bool>, k: int)
    requires
        present.len() == cands.len(),
        0 <= k < cands.len(),
        present[k],
        forall|j: int| 0 <= j < present.len() && j != k ==> !present[j],
    ensures
        first_present(cands, present) == Some(cands[k]),
{
    let n = cands.len() as int;
    assert(0 <= k < n && present[k] && forall|j: int| 0 <= j < k ==> !present[j]);
    let i = choose|i: int| 0 <= i < n && present[i] && forall|j: int| 0 <= j < i ==> !present[j];
    assert(i == k);
}

/// With no candidate present, nothing is selected.
pub proof fn lemma_none_present_nothing_selected(cands: Seq<Seq<char>>, present: Seq<bool>)
    requires
        forall|j: int| 0 <= j < present.len() ==> !present[j],
    ensures
        first_present(cands, present) is None,
{
}

/// A selected path is always one of the candidates.
pub proof fn lemma_selected_is_candidate(cands: Seq<Seq<char>>, present: Seq<bool>)
    ensures
        first_present(cands, present) matches Some(p) ==> cands.contains(p),
{
    let n = if cands.len() < present.len() { cands.len() as int } else { present.len() as int };
    if let Some(i) = first_true(present, n) {
        assert(0 <= i < n);
        assert(cands[i] == cands[i]);
    }
}

} // verus!
