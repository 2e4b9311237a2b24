//! Which directory to scan for music and which files of it to keep.
//!
//! The scan itself walks the file system and is done by the program with
//! `ignore::WalkBuilder`; this module decides what may be walked, builds the
//! file-type filter the walk applies, and turns the walk's entries into the
//! list of files.

use vstd::prelude::*;

use ignore::types::{Types, TypesBuilder};

use crate::configuration::Commands;
use crate::path::{spec_starts_with, FsPath};

verus! {

#[verifier::external_type_specification]
#[verifier::external_body]
pub struct ExTypesBuilder(ignore::types::TypesBuilder);

#[verifier::external_type_specification]
#[verifier::external_body]
pub struct ExTypes(ignore::types::Types);

#[verifier::external_type_specification]
#[verifier::external_body]
pub struct ExIgnoreError(ignore::Error);

/// The file type definitions a `TypesBuilder` holds: each type name with
/// its globs, in the order they were added.
pub uninterp spec fn type_definitions(b: TypesBuilder) -> Map<Seq<char>, Seq<Seq<char>>>;

/// The selections a `TypesBuilder` holds, in the order they were made: for
/// each, whether it negates the type, and the type's name.
pub uninterp spec fn type_selections(b: TypesBuilder) -> Seq<(bool, Seq<char>)>;

/// The globs that `defs` holds for `name`, none if it holds no definition of
/// it.
pub open spec fn globs_of(defs: Map<Seq<char>, Seq<Seq<char>>>, name: Seq<char>) -> Seq<Seq<char>> {
    if defs.contains_key(name) {
        defs[name]
    } else {
        Seq::empty()
    }
}

/// The definitions of a builder that holds none.
pub open spec fn no_definitions() -> Map<Seq<char>, Seq<Seq<char>>> {
    Map::empty()
}

/// The selections of a builder that holds none.
pub open spec fn no_selections() -> Seq<(bool, Seq<char>)> {
    Seq::empty()
}

/// Whether `c` is an ASCII letter or digit.
pub open spec fn is_ascii_alphanumeric(c: char) -> bool {
    ('a' <= c && c <= 'z') || ('A' <= c && c <= 'Z') || ('0' <= c && c <= '9')
}

/// The type name that `TypesBuilder::select` reads as "every type".
pub open spec fn all_types_name() -> Seq<char> {
    seq!['a', 'l', 'l']
}

/// `TypesBuilder::new`: a builder with no definitions and no selections.
#[verifier::external_body]
fn types_builder_new() -> (b: TypesBuilder)
    ensures
        type_definitions(b) == no_definitions(),
        type_selections(b) == no_selections(),
{
    TypesBuilder::new()
}

/// `TypesBuilder::add_defaults`: adds the crate's default definitions, each
/// through `add`, so definitions only gain globs at their end and the
/// selections stay. The default definitions (`default_types.rs`) hold no
/// type named `sound`, so its definition stays as it was. Which other names
/// and globs it adds is not stated.
#[verifier::external_body]
fn types_builder_add_defaults(b: &mut TypesBuilder)
    ensures
        type_selections(*final(b)) == type_selections(*old(b)),
        type_definitions(*final(b)).contains_key(sound_type_name()) == type_definitions(
            *old(b),
        ).contains_key(sound_type_name()),
        type_definitions(*old(b)).contains_key(sound_type_name()) ==> type_definitions(
            *final(b),
        )[sound_type_name()] == type_definitions(*old(b))[sound_type_name()],
        forall|name: Seq<char>|
            #![trigger type_definitions(*final(b))[name]]
            type_definitions(*old(b)).contains_key(name) ==> {
                &&& type_definitions(*final(b)).contains_key(name)
                &&& type_definitions(*old(b))[name].len() <= type_definitions(*final(b))[name].len()
                &&& type_definitions(*final(b))[name].subrange(
                    0,
                    type_definitions(*old(b))[name].len() as int,
                ) == type_definitions(*old(b))[name]
            },
{
    b.add_defaults();
}

/// `TypesBuilder::add`: appends `glob` to the definition of `name`. It fails,
/// changing nothing, when `name` is `all`; it succeeds when `name` is not
/// `all` and is made of ASCII letters and digits. (It also accepts other
/// Unicode letters and numbers; which ones is not stated.)
#[verifier::external_body]
fn types_builder_add(b: &mut TypesBuilder, name: &str, glob: &str) -> (r: Result<(), ignore::Error>)
    ensures
        name@ == all_types_name() ==> r is Err,
        (name@ != all_types_name() && forall|i: int|
            0 <= i < name@.len() ==> is_ascii_alphanumeric(#[trigger] name@[i])) ==> r is Ok,
        r is Ok ==> type_definitions(*final(b)) == type_definitions(*old(b)).insert(
            name@,
            globs_of(type_definitions(*old(b)), name@).push(glob@),
        ),
        r is Err ==> type_definitions(*final(b)) == type_definitions(*old(b)),
        type_selections(*final(b)) == type_selections(*old(b)),
{
    b.add(name, glob)
}

/// `TypesBuilder::select`: selects the type `name`; the selection is added
/// last. (For `all` it selects every defined type, in an order the source
/// leaves open; that case is not stated.)
#[verifier::external_body]
fn types_builder_select(b: &mut TypesBuilder, name: &str)
    ensures
        type_definitions(*final(b)) == type_definitions(*old(b)),
        name@ != all_types_name() ==> type_selections(*final(b)) == type_selections(
            *old(b),
        ).push((false, name@)),
{
    b.select(name);
}

/// Whether `TypesBuilder::build` succeeds on a builder that holds these
/// definitions and selections. (It fails when a selected type has no
/// definition, or when a glob of a selected type does not parse or the set
/// of them cannot be compiled.)
pub uninterp spec fn types_build_succeeds(
    defs: Map<Seq<char>, Seq<Seq<char>>>,
    selections: Seq<(bool, Seq<char>)>,
) -> bool;

/// The selections a matcher (`Types`) applies, in order: for each, whether
/// it negates the type, and the type's name.
pub uninterp spec fn matcher_selections(t: Types) -> Seq<(bool, Seq<char>)>;

/// The globs of each selection a matcher (`Types`) applies, in the order of
/// the selections.
pub uninterp spec fn matcher_globs(t: Types) -> Seq<Seq<Seq<char>>>;

/// `TypesBuilder::build`: the matcher of the selected types. Whether it
/// succeeds depends on the builder's definitions and selections alone; it
/// fails when a selected type has no definition. (It also fails on a glob
/// that does not parse; which globs those are is not stated.) The matcher
/// built applies the builder's selections in order, each with the globs of
/// its type's definition.
#[verifier::external_body]
fn types_builder_build(b: &TypesBuilder) -> (r: Result<Types, ignore::Error>)
    ensures
        r is Ok <==> types_build_succeeds(type_definitions(*b), type_selections(*b)),
        r matches Ok(t) ==> matcher_selections(t) == type_selections(*b) && matcher_globs(t).len()
            == type_selections(*b).len() && forall|i: int|
            0 <= i < type_selections(*b).len() ==> #[trigger] matcher_globs(t)[i]
                == type_definitions(*b)[type_selections(*b)[i].1],
        (exists|i: int|
            0 <= i < type_selections(*b).len() && !type_definitions(*b).contains_key(
                #[trigger] type_selections(*b)[i].1,
            )) ==> r is Err,
{
    b.build()
}

/// The name of the file type of the music files.
pub open spec fn sound_type_name() -> Seq<char> {
    seq!['s', 'o', 'u', 'n', 'd']
}

/// The file extensions of the music files.
pub open spec fn accepted_filetypes() -> Seq<Seq<char>> {
    seq![seq!['m', 'p', '3'], seq!['f', 'l', 'a', 'c'], seq!['w', 'a', 'v']]
}

/// The glob that matches the file names with extension `ext`.
pub open spec fn glob_for(ext: Seq<char>) -> Seq<char> {
    seq!['*', '.'] + ext
}

/// The globs of the music files, one per accepted extension.
pub open spec fn sound_globs() -> Seq<Seq<char>> {
    accepted_filetypes().map_values(|ext: Seq<char>| glob_for(ext))
}

/// The file-type filter of the scan: the default definitions, a type `sound`
/// whose globs are `*.mp3`, `*.flac` and `*.wav`, and `sound` as the only
/// selection.
pub fn sound_types_builder() -> (b: TypesBuilder)
    ensures
        type_selections(b) == seq![(false, sound_type_name())],
        type_definitions(b).contains_key(sound_type_name()),
        type_definitions(b)[sound_type_name()] == sound_globs(),
{
    let mut b = types_builder_new();
    types_builder_add_defaults(&mut b);
    let accepted: Vec<&str> = vec!["mp3", "flac", "wav"];
    let name = "sound";
    proof {
        reveal_strlit("mp3");
        reveal_strlit("flac");
        reveal_strlit("wav");
        reveal_strlit("sound");
        assert("mp3"@ =~= seq!['m', 'p', '3']);
        assert("flac"@ =~= seq!['f', 'l', 'a', 'c']);
        assert("wav"@ =~= seq!['w', 'a', 'v']);
        assert(accepted@.map_values(|e: &str| e@) =~= accepted_filetypes());
        assert(name@ =~= sound_type_name());
    }
    let ghost prior = globs_of(type_definitions(b), sound_type_name());
    assert(prior =~= Seq::<Seq<char>>::empty());
    let mut i: usize = 0;
    while i < accepted.len()
        invariant
            accepted@.map_values(|e: &str| e@) == accepted_filetypes(),
            name@ == sound_type_name(),
            i <= accepted@.len(),
            type_selections(b) == no_selections(),
            i > 0 ==> type_definitions(b).contains_key(sound_type_name()),
            globs_of(type_definitions(b), sound_type_name()) == prior + sound_globs().take(i as int),
        decreases accepted@.len() - i,
    {
        let mut glob = String::from_str("*.");
        glob.append(accepted[i]);
        assert(accepted@.map_values(|e: &str| e@)[i as int] == accepted@[i as int]@);
        proof {
            reveal_strlit("*.");
            assert("*."@ =~= seq!['*', '.']);
            assert(sound_globs()[i as int] == glob_for(accepted_filetypes()[i as int]));
        }
        assert(glob@ == sound_globs()[i as int]);
        proof {
            assert(name@ != all_types_name()) by {
                assert(name@[0] != all_types_name()[0]);
            }
            assert forall|k: int| 0 <= k < name@.len() implies is_ascii_alphanumeric(
                #[trigger] name@[k],
            ) by {}
        }
        let added = types_builder_add(&mut b, name, glob.as_str());
        assert(added is Ok);
        assert(sound_globs().take(i + 1) =~= sound_globs().take(i as int).push(glob@));
        i = i + 1;
    }
    proof {
        assert(sound_type_name() != all_types_name()) by {
            assert(sound_type_name()[0] != all_types_name()[0]);
        }
    }
    types_builder_select(&mut b, name);
    proof {
        assert(sound_globs().take(3) =~= sound_globs());
        assert(prior + sound_globs() =~= sound_globs());
        assert(seq![(false, sound_type_name())] =~= no_selections().push((false, sound_type_name())));
    }
    b
}

/// Whether `b` holds what `sound_types_builder` promises of its result.
pub open spec fn is_sound_types_builder(b: TypesBuilder) -> bool {
    &&& type_selections(b) == seq![(false, sound_type_name())]
    &&& type_definitions(b).contains_key(sound_type_name())
    &&& type_definitions(b)[sound_type_name()] == sound_globs()
}

/// The matcher of the music files: the build of a builder made by
/// `sound_types_builder`, which succeeds exactly when that build does; the
/// matcher applies the one selection `sound`, with the globs `*.mp3`,
/// `*.flac` and `*.wav`. The build parses the globs, so whether it succeeds
/// rests on the glob parser of `globset`.
pub fn sound_types() -> (r: Result<Types, ignore::Error>)
    ensures
        r matches Ok(t) ==> matcher_selections(t) == seq![(false, sound_type_name())]
            && matcher_globs(t) == seq![sound_globs()],
        exists|b: TypesBuilder|
            #[trigger] is_sound_types_builder(b) && (r is Ok <==> types_build_succeeds(
                type_definitions(b),
                type_selections(b),
            )),
{
    let b = sound_types_builder();
    let r = types_builder_build(&b);
    assert(is_sound_types_builder(b));
    if let Ok(t) = &r {
        assert(matcher_globs(*t)[0] == sound_globs());
        assert(matcher_globs(*t) =~= seq![sound_globs()]);
    }
    r
}

/// The message of the refusal to scan outside the base path.
pub const OUTSIDE_BASE: &'static str = "Tried to access file or directory outside of server `base_path` config.";

/// The directory that scans start from: the `base_path` of a `start`
/// command, the current directory otherwise.
pub fn scan_base(command: &Commands, current_dir: FsPath) -> (b: FsPath)
    ensures
        command matches Commands::Start { base_path, .. } ==> b@ == base_path@,
        !(command is Start) ==> b@ == current_dir@,
{
    match command {
        Commands::Start { base_path, .. } => base_path.clone(),
        _ => current_dir,
    }
}

/// What the program is to walk: the directory, and the file-type filter to
/// apply to what it finds.
pub struct WalkPlan {
    pub root: FsPath,
    pub types: Types,
}

/// The plan to list the music under `search_path` for a server whose base
/// path has the canonical form `canonical_base`. Both are canonical (the
/// program resolves them on the file system: absolute, with links, `.` and
/// `..` resolved), so lying under the base is a matter of components. A
/// joined path can name any place of the file system, so it is refused
/// unless it lies under the base path; a relative base such as `.` admits
/// the directories inside it.
pub fn walk_dir(canonical_base: &FsPath, search_path: FsPath, types: Types) -> (r: Result<
    WalkPlan,
    &'static str,
>)
    ensures
        r is Ok <==> spec_starts_with(search_path@, canonical_base@),
        r matches Ok(plan) ==> plan.root@ == search_path@ && plan.types == types,
        r matches Err(m) ==> m == OUTSIDE_BASE,
{
    if !search_path.starts_with(canonical_base) {
        return Err(OUTSIDE_BASE);
    }
    Ok(WalkPlan { root: search_path, types })
}

/// One entry that a walk yields.
#[derive(Debug)]
pub struct WalkEntry {
    pub path: FsPath,
    pub is_dir: bool,
}

/// The paths of the files among `entries`, in order, leaving out the
/// directories and the entries that could not be read (`None`).
pub open spec fn listed_files(entries: Seq<Option<WalkEntry>>) -> Seq<Seq<Seq<char>>>
    decreases entries.len(),
{
    if entries.len() == 0 {
        Seq::empty()
    } else {
        let rest = listed_files(entries.drop_last());
        if entries.last() matches Some(e) && !e.is_dir {
            rest.push(entries.last()->0.path@)
        } else {
            rest
        }
    }
}

/// The files that a walk found.
pub fn collect_files(entries: &Vec<Option<WalkEntry>>) -> (files: Vec<FsPath>)
    ensures
        files@.map_values(|p: FsPath| p@) == listed_files(entries@),
{
    let mut files: Vec<FsPath> = Vec::new();
    let mut i: usize = 0;
    while i < entries.len()
        invariant
            i <= entries@.len(),
            files@.map_values(|p: FsPath| p@) == listed_files(entries@.take(i as int)),
        decreases entries@.len() - i,
    {
        let ghost before = files@;
        assert(entries@.take(i + 1).drop_last() =~= entries@.take(i as int));
        match &entries[i] {
            Some(entry) => {
                if !entry.is_dir {
                    files.push(entry.path.clone());
                    assert(files@.map_values(|p: FsPath| p@) =~= before.map_values(
                        |p: FsPath| p@,
                    ).push(entry.path@));
                }
            },
            None => {},
        }
        i = i + 1;
    }
    assert(entries@.take(entries@.len() as int) =~= entries@);
    files
}

/// Whether a walk entry is a file that could be read.
pub open spec fn is_readable_file(e: Option<WalkEntry>) -> bool {
    e matches Some(x) && !x.is_dir
}

/// The entries of a walk that are files that could be read, in order.
pub open spec fn readable_files(entries: Seq<Option<WalkEntry>>) -> Seq<Option<WalkEntry>> {
    entries.filter(readable_file_test())
}

/// `is_readable_file` as a function value.
pub open spec fn readable_file_test() -> spec_fn(Option<WalkEntry>) -> bool {
    |e: Option<WalkEntry>| is_readable_file(e)
}

/// The path of a walk entry that could be read.
pub open spec fn entry_path(e: Option<WalkEntry>) -> Seq<Seq<char>> {
    e->0.path@
}

/// The files listed from a walk are the readable files among its entries,
/// each by its path, in the order of the walk.
pub proof fn lemma_listed_files_filter(entries: Seq<Option<WalkEntry>>)
    ensures
        listed_files(entries) == readable_files(entries).map_values(
            |e: Option<WalkEntry>| entry_path(e),
        ),
    decreases entries.len(),
{
    reveal_with_fuel(Seq::filter, 2);
    let m = readable_files(entries).map_values(|e: Option<WalkEntry>| entry_path(e));
    if entries.len() > 0 {
        lemma_listed_files_filter(entries.drop_last());
    }
    assert(listed_files(entries) =~= m);
}

/// Every readable file of a walk is listed, nothing else is, and there are
/// as many files listed as there are such entries.
pub proof fn lemma_listed_files_complete(entries: Seq<Option<WalkEntry>>)
    ensures
        listed_files(entries).len() == readable_files(entries).len(),
        forall|i: int|
            0 <= i < entries.len() && is_readable_file(entries[i]) ==> listed_files(
                entries,
            ).contains(#[trigger] entry_path(entries[i])),
        forall|j: int|
            0 <= j < listed_files(entries).len() ==> #[trigger] listed_files(entries)[j]
                == entry_path(readable_files(entries)[j]),
        forall|j: int|
            0 <= j < readable_files(entries).len() ==> is_readable_file(
                #[trigger] readable_files(entries)[j],
            ) && entries.contains(readable_files(entries)[j]),
{
    lemma_listed_files_filter(entries);
    let f = readable_files(entries);
    let m = f.map_values(|e: Option<WalkEntry>| entry_path(e));
    broadcast use vstd::seq_lib::group_filter_ensures;
    assert forall|i: int|
        0 <= i < entries.len() && is_readable_file(entries[i]) implies listed_files(
        entries,
    ).contains(#[trigger] entry_path(entries[i])) by {
        assert(f.contains(entries[i]));
        let k = choose|k: int| 0 <= k < f.len() && f[k] == entries[i];
        assert(m[k] == entry_path(entries[i]));
    }
    assert forall|j: int| 0 <= j < f.len() implies is_readable_file(#[trigger] f[j])
        && entries.contains(f[j]) by {
        assert(f.contains(f[j]));
        entries.lemma_filter_contains_rev(readable_file_test(), f[j]);
    }
}

/// The music filter's type is `sound`, with the globs `*.mp3`, `*.flac` and
/// `*.wav`.
pub proof fn lemma_sound_globs()
    ensures
        sound_type_name() == seq!['s', 'o', 'u', 'n', 'd'],
        sound_globs() == seq![
            seq!['*', '.', 'm', 'p', '3'],
            seq!['*', '.', 'f', 'l', 'a', 'c'],
            seq!['*', '.', 'w', 'a', 'v'],
        ],
{
    assert(sound_globs() =~= seq![
        seq!['*', '.', 'm', 'p', '3'],
        seq!['*', '.', 'f', 'l', 'a', 'c'],
        seq!['*', '.', 'w', 'a', 'v'],
    ]) by {
        assert(glob_for(seq!['m', 'p', '3']) =~= seq!['*', '.', 'm', 'p', '3']);
        assert(glob_for(seq!['f', 'l', 'a', 'c']) =~= seq!['*', '.', 'f', 'l', 'a', 'c']);
        assert(glob_for(seq!['w', 'a', 'v']) =~= seq!['*', '.', 'w', 'a', 'v']);
    }
}

} // verus!
