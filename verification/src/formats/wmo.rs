//! The world model: a root file and the group files that depend on it. The
//! root file says how many group files there are; their names derive from
//! the root file's name.

use crate::byte_utils::{chars_of, push_chars};
use crate::common::{plain, viewed, DecodeError, Failure, R};
use crate::formats::chunk::types::{
    mohd_of, mver_of, ChunkModn, ChunkMogn, ChunkMohd, ChunkMotx, ChunkMver,
};
use crate::formats::chunk::{
    container, decoded_chunk, names_in, tags_present, Chunk, ChunkVecUtils, ChunkView,
};
use crate::formats::variant::{resolve, resolved};
use vstd::prelude::*;

verus! {

/// The tags that mark a root file.
pub open spec fn root_markers() -> Seq<Seq<char>> {
    seq!["MOMT"@, "MOGI"@, "MOSB"@, "MOVV"@, "MODN"@]
}

/// The tags that mark a group file.
pub open spec fn group_markers() -> Seq<Seq<char>> {
    seq!["MOGP"@, "MOPY"@, "MOVI"@, "MONR"@, "MOTV"@]
}

/// The variants of the format in their order of precedence: the root file
/// first, the group file second.
pub open spec fn wmo_candidates() -> Seq<Seq<Seq<char>>> {
    seq![root_markers(), group_markers()]
}

/// The marker tags of a root file.
pub fn root_file_chunks() -> (r: Vec<&'static str>)
    ensures
        r.deep_view() == root_markers(),
{
    let r = vec!["MOMT", "MOGI", "MOSB", "MOVV", "MODN"];
    assert(r.deep_view() =~= root_markers());
    r
}

/// The marker tags of a group file.
pub fn group_file_chunks() -> (r: Vec<&'static str>)
    ensures
        r.deep_view() == group_markers(),
{
    let r = vec!["MOGP", "MOPY", "MOVI", "MONR", "MOTV"];
    assert(r.deep_view() =~= group_markers());
    r
}

/// The file of a world model: its root and its groups, in index order.
#[derive(Debug)]
pub struct WmoFile {
    pub root: WmoRootFile,
    pub groups: Vec<WmoGroupFile>,
}

/// What a file of the format turned out to be.
#[derive(Debug)]
pub enum WmoFileVariant {
    ROOT(WmoRootFile),
    GROUP(WmoGroupFile),
}

/// A root file. The fields of unit type stand for chunks that are
/// recognized and not decoded.
#[derive(Debug)]
pub struct WmoRootFile {
    pub mver: ChunkMver,
    pub motx: ChunkMotx,
    pub mohd: ChunkMohd,
    pub momt: (),
    pub mogn: ChunkMogn,
    pub mogi: (),
    pub mosb: (),
    pub mopv: (),
    pub mopt: (),
    pub mopr: (),
    pub movv: (),
    pub movb: (),
    pub molt: (),
    pub mods: (),
    pub modn: ChunkModn,
    pub modd: (),
    pub mfog: (),
}

/// A group file. Only the version marker is decoded: the fields of unit
/// type stand for chunks that are recognized and not decoded, and the
/// optional ones are absent.
#[derive(Debug, Clone, Copy, PartialEq, Eq)]
pub struct WmoGroupFile {
    pub mver: ChunkMver,
    pub mogp: (),
    pub mopy: (),
    pub movi: (),
    pub movt: (),
    pub monr: (),
    pub motv: (),
    pub moba: (),
    pub molr: Option<()>,
    pub modr: Option<()>,
    pub mobn: Option<()>,
    pub mobr: Option<()>,
    pub mpbv: Option<()>,
    pub mpbp: Option<()>,
    pub mpbi: Option<()>,
    pub mpbg: Option<()>,
    pub mocv: Option<()>,
    pub mliq: Option<()>,
    pub mori: Option<()>,
    pub morb: Option<()>,
}

/// The mathematical content of a [`WmoRootFile`]: its decoded chunks.
pub struct WmoRootView {
    pub mver: ChunkMver,
    pub motx: Seq<Seq<char>>,
    pub mohd: ChunkMohd,
    pub mogn: Seq<Seq<char>>,
    pub modn: Seq<Seq<char>>,
}

/// The mathematical content of a [`WmoFileVariant`].
pub enum WmoVariantView {
    Root(WmoRootView),
    Group(WmoGroupFile),
}

/// The mathematical content of a [`WmoFile`].
pub struct WmoFileView {
    pub root: WmoRootView,
    pub groups: Seq<WmoGroupFile>,
}

impl View for WmoRootFile {
    type V = WmoRootView;

    open spec fn view(&self) -> WmoRootView {
        WmoRootView {
            mver: self.mver,
            motx: self.motx@,
            mohd: self.mohd,
            mogn: self.mogn@,
            modn: self.modn@,
        }
    }
}

impl View for WmoGroupFile {
    type V = WmoGroupFile;

    open spec fn view(&self) -> WmoGroupFile {
        *self
    }
}

impl View for WmoFileVariant {
    type V = WmoVariantView;

    open spec fn view(&self) -> WmoVariantView {
        match *self {
            WmoFileVariant::ROOT(root) => WmoVariantView::Root(root@),
            WmoFileVariant::GROUP(group) => WmoVariantView::Group(group),
        }
    }
}

impl View for WmoFile {
    type V = WmoFileView;

    open spec fn view(&self) -> WmoFileView {
        WmoFileView { root: self.root@, groups: self.groups@ }
    }
}

/// The root file that the chunks of a container make. The fields are
/// decoded in the order in which they are declared, and the first that
/// fails, by a missing chunk or by its payload, fails the file.
pub open spec fn root_of(chunks: Seq<ChunkView>) -> Result<WmoRootView, Failure> {
    match decoded_chunk(chunks, "MVER"@, |d: Seq<u8>| mver_of(d)) {
        Err(e) => Err(e),
        Ok(mver) => match names_in(chunks, "MOTX"@) {
            Err(e) => Err(e),
            Ok(motx) => match decoded_chunk(chunks, "MOHD"@, |d: Seq<u8>| mohd_of(d)) {
                Err(e) => Err(e),
                Ok(mohd) => match names_in(chunks, "MOGN"@) {
                    Err(e) => Err(e),
                    Ok(mogn) => match names_in(chunks, "MODN"@) {
                        Err(e) => Err(e),
                        Ok(modn) => Ok(WmoRootView { mver, motx, mohd, mogn, modn }),
                    },
                },
            },
        },
    }
}

/// The group file with this version marker.
pub open spec fn group_with(mver: ChunkMver) -> WmoGroupFile {
    WmoGroupFile {
        mver,
        mogp: (),
        mopy: (),
        movi: (),
        movt: (),
        monr: (),
        motv: (),
        moba: (),
        molr: None,
        modr: None,
        mobn: None,
        mobr: None,
        mpbv: None,
        mpbp: None,
        mpbi: None,
        mpbg: None,
        mocv: None,
        mliq: None,
        mori: None,
        morb: None,
    }
}

/// The group file that the chunks of a container make.
pub open spec fn group_of(chunks: Seq<ChunkView>) -> Result<WmoGroupFile, Failure> {
    match decoded_chunk(chunks, "MVER"@, |d: Seq<u8>| mver_of(d)) {
        Err(e) => Err(e),
        Ok(mver) => Ok(group_with(mver)),
    }
}

/// The variant that the chunks of a container make: the resolver decides
/// by the tags present which of the two it is, and that one is assembled.
pub open spec fn variant_of(chunks: Seq<ChunkView>) -> Result<WmoVariantView, Failure> {
    match resolved(wmo_candidates(), tags_present(chunks)) {
        Err(e) => Err(e),
        Ok(k) => if k == 0 {
            match root_of(chunks) {
                Err(e) => Err(e),
                Ok(root) => Ok(WmoVariantView::Root(root)),
            }
        } else {
            match group_of(chunks) {
                Err(e) => Err(e),
                Ok(group) => Ok(WmoVariantView::Group(group)),
            }
        },
    }
}

/// The group file that the bytes of a file hold.
pub open spec fn group_of_bytes(bytes: Seq<u8>) -> Result<WmoGroupFile, Failure> {
    match container(bytes) {
        Err(e) => Err(e),
        Ok(chunks) => group_of(chunks),
    }
}

/// The ending of the file names of the format.
pub open spec fn extension() -> Seq<char> {
    seq!['.', 'w', 'm', 'o']
}

/// Index `i` holds the last dot of `name`.
pub open spec fn last_dot(name: Seq<char>, i: int) -> bool {
    &&& 0 <= i < name.len()
    &&& name[i] == '.'
    &&& forall|j: int| i < j < name.len() ==> name[j] != '.'
}

/// Where the stem of a file name ends: at its last dot, or at the end of
/// the name where it holds no dot.
pub open spec fn stem_end(name: Seq<char>) -> int {
    if exists|i: int| 0 <= i < name.len() && name[i] == '.' {
        choose|i: int| last_dot(name, i)
    } else {
        name.len() as int
    }
}

/// The stem of a file name: the name without its last extension, that is
/// what stands before its last dot; the whole name where it holds no dot.
pub open spec fn file_stem(name: Seq<char>) -> Seq<char> {
    name.take(stem_end(name))
}

/// A name made of a stem, a dot and an extension without a dot has that
/// stem, whatever dots the stem itself holds.
pub proof fn lemma_stem_drops_last_extension(stem: Seq<char>, ending: Seq<char>)
    requires
        forall|j: int| 0 <= j < ending.len() ==> ending[j] != '.',
    ensures
        file_stem(stem + seq!['.'] + ending) == stem,
{
    let name = stem + seq!['.'] + ending;
    let dot = stem.len() as int;
    assert(name[dot] == '.');
    assert forall|j: int| dot < j < name.len() implies name[j] != '.' by {
        assert(name[j] == ending[j - dot - 1]);
    }
    assert(last_dot(name, dot));
    let chosen = choose|i: int| last_dot(name, i);
    assert(chosen == dot);
    assert(name.take(dot) =~= stem);
}

/// A name without a dot is its own stem.
pub proof fn lemma_stem_of_name_without_dot(name: Seq<char>)
    requires
        forall|j: int| 0 <= j < name.len() ==> name[j] != '.',
    ensures
        file_stem(name) == name,
{
    assert(name.take(name.len() as int) =~= name);
}

/// The character of one decimal digit.
pub open spec fn digit(d: nat) -> char
    recommends
        d < 10,
{
    (48 + d) as u8 as char
}

/// The decimal numeral of a number, without leading zeros.
pub open spec fn decimal(n: nat) -> Seq<char>
    decreases n,
{
    if n < 10 {
        seq![digit(n)]
    } else {
        decimal(n / 10).push(digit(n % 10))
    }
}

/// The decimal numeral of a number, with zeros in front of it where it has
/// fewer than three digits.
pub open spec fn padded(n: nat) -> Seq<char> {
    let d = decimal(n);
    if d.len() >= 3 {
        d
    } else {
        Seq::new((3 - d.len()) as nat, |i: int| '0') + d
    }
}

/// The name of the group file with this index: the stem, an underscore,
/// the index in at least three digits, and the ending.
pub open spec fn group_name(stem: Seq<char>, index: nat) -> Seq<char> {
    stem + seq!['_'] + padded(index) + extension()
}

/// The names of the group files of a root file, in index order.
pub open spec fn group_names(n_groups: nat, file_name: Seq<char>) -> Seq<Seq<char>> {
    Seq::new(n_groups, |i: int| group_name(file_stem(file_name), i as nat))
}

/// The decimal numeral of a number.
pub fn decimal_digits(n: u32) -> (r: Vec<char>)
    ensures
        r@ == decimal(n as nat),
    decreases n,
{
    if n < 10 {
        let r = vec![(48u8 + n as u8) as char];
        assert(r@ =~= seq![digit(n as nat)]);
        r
    } else {
        let mut r = decimal_digits(n / 10);
        r.push((48u8 + (n % 10) as u8) as char);
        r
    }
}

/// Where the stem of a file name ends.
pub fn find_stem_end(name: &Vec<char>) -> (r: usize)
    ensures
        r == stem_end(name@),
        r <= name.len(),
{
    let mut i: usize = name.len();
    while i > 0
        invariant
            i <= name.len(),
            forall|j: int| i <= j < name.len() ==> name@[j] != '.',
        decreases i,
    {
        i = i - 1;
        if name[i] == '.' {
            proof {
                assert(last_dot(name@, i as int));
                let chosen = choose|j: int| last_dot(name@, j);
                assert(chosen == i);
            }
            return i;
        }
    }
    name.len()
}

impl WmoRootFile {
    /// The names of the group files that a root file of this name, with
    /// this many groups, depends on.
    pub fn get_group_names(n_groups: u32, root_file_name: &str) -> (r: Vec<String>)
        ensures
            r.deep_view() == group_names(n_groups as nat, root_file_name@),
    {
        let name = chars_of(root_file_name);
        let ending: Vec<char> = vec!['.', 'w', 'm', 'o'];
        assert(ending@ =~= extension());
        let end = find_stem_end(&name);
        let mut stem: Vec<char> = Vec::new();
        let mut k: usize = 0;
        while k < end
            invariant
                k <= end <= name.len(),
                stem@ == name@.take(k as int),
            decreases end - k,
        {
            stem.push(name[k]);
            assert(stem@ =~= name@.take(k + 1));
            k = k + 1;
        }
        let mut names: Vec<String> = Vec::new();
        let mut index: u32 = 0;
        while index < n_groups
            invariant
                index <= n_groups,
                names.len() == index,
                ending@ == extension(),
                stem@ == file_stem(root_file_name@),
                forall|i: int|
                    0 <= i < index ==> (#[trigger] names[i])@ == group_name(stem@, i as nat),
            decreases n_groups - index,
        {
            let digits = decimal_digits(index);
            let mut name = String::new();
            push_chars(&mut name, &stem);
            name.push('_');
            if digits.len() < 3 {
                let mut pad: usize = 3 - digits.len();
                let ghost width = pad;
                let ghost before = name@;
                while pad > 0
                    invariant
                        pad <= width,
                        name@ == before + Seq::new((width - pad) as nat, |i: int| '0'),
                    decreases pad,
                {
                    name.push('0');
                    pad = pad - 1;
                    assert(name@ =~= before + Seq::new((width - pad) as nat, |i: int| '0'));
                }
            }
            push_chars(&mut name, &digits);
            push_chars(&mut name, &ending);
            assert(name@ =~= group_name(stem@, index as nat));
            names.push(name);
            index = index + 1;
        }
        proof {
            assert(names.deep_view() =~= group_names(n_groups as nat, root_file_name@));
        }
        names
    }

    /// Assembles a root file from the chunks of its container.
    pub fn new(chunks: Vec<Chunk>) -> (r: R<WmoRootFile>)
        ensures
            viewed(r) == root_of(chunks.deep_view()),
    {
        let mver = chunks.get_mver_chunk()?;
        let motx = chunks.get_motx()?;
        let mohd = chunks.get_mohd()?;
        let mogn = chunks.get_mogn()?;
        let modn = chunks.get_modn()?;
        Ok(
            WmoRootFile {
                mver,
                motx,
                mohd,
                momt: (),
                mogn,
                mogi: (),
                mosb: (),
                mopv: (),
                mopt: (),
                mopr: (),
                movv: (),
                movb: (),
                molt: (),
                mods: (),
                modn,
                modd: (),
                mfog: (),
            },
        )
    }
}

impl WmoGroupFile {
    /// Assembles a group file from the chunks of its container.
    pub fn new(chunks: Vec<Chunk>) -> (r: R<WmoGroupFile>)
        ensures
            plain(r) == group_of(chunks.deep_view()),
    {
        let mver = chunks.get_mver_chunk()?;
        Ok(
            WmoGroupFile {
                mver,
                mogp: (),
                mopy: (),
                movi: (),
                movt: (),
                monr: (),
                motv: (),
                moba: (),
                molr: None,
                modr: None,
                mobn: None,
                mobr: None,
                mpbv: None,
                mpbp: None,
                mpbi: None,
                mpbg: None,
                mocv: None,
                mliq: None,
                mori: None,
                morb: None,
            },
        )
    }
}

impl WmoFileVariant {
    /// Resolves the variant of a container and assembles it.
    pub fn new(chunks: Vec<Chunk>) -> (r: R<WmoFileVariant>)
        ensures
            viewed(r) == variant_of(chunks.deep_view()),
    {
        let chunk_names_lookup = chunks.get_tags();
        let candidates = vec![root_file_chunks(), group_file_chunks()];
        assert(candidates.deep_view() =~= wmo_candidates());
        let which = resolve(&candidates, &chunk_names_lookup)?;
        if which == 0 {
            Ok(WmoFileVariant::ROOT(WmoRootFile::new(chunks)?))
        } else {
            Ok(WmoFileVariant::GROUP(WmoGroupFile::new(chunks)?))
        }
    }
}

/// The mathematical content of a [`WmoLoad`]: the root, the names of the
/// group files that it depends on, and the groups loaded so far.
pub struct WmoLoadView {
    pub root: WmoRootView,
    pub names: Seq<Seq<char>>,
    pub groups: Seq<WmoGroupFile>,
}

impl WmoLoadView {
    /// The name of the dependent file to load next; none when every group
    /// is loaded. The files are asked for in index order.
    pub open spec fn pending(self) -> Option<Seq<char>> {
        if self.groups.len() < self.names.len() {
            Some(self.names[self.groups.len() as int])
        } else {
            None
        }
    }

    /// The load after the pending file was read, or was not: `contents`
    /// is what was read, and is nothing where the file is missing or
    /// unreadable. A file that is missing, or that does not decode as a
    /// group file, fails the whole load and is named in the failure.
    pub open spec fn supplied(self, contents: Option<Seq<u8>>) -> Result<WmoLoadView, Failure> {
        match self.pending() {
            None => Ok(self),
            Some(name) => match contents {
                None => Err(Failure::DependencyLoadFailed { name }),
                Some(bytes) => match group_of_bytes(bytes) {
                    Err(_) => Err(Failure::DependencyLoadFailed { name }),
                    Ok(group) => Ok(
                        WmoLoadView {
                            root: self.root,
                            names: self.names,
                            groups: self.groups.push(group),
                        },
                    ),
                },
            },
        }
    }

    /// The world model, once nothing is pending.
    pub open spec fn finished(self) -> WmoFileView {
        WmoFileView { root: self.root, groups: self.groups }
    }

    /// The load after the files supplied one after another.
    pub open spec fn run(self, sources: Seq<Option<Seq<u8>>>) -> Result<WmoLoadView, Failure>
        decreases sources.len(),
    {
        if sources.len() == 0 {
            Ok(self)
        } else {
            match self.supplied(sources[0]) {
                Err(e) => Err(e),
                Ok(next) => next.run(sources.drop_first()),
            }
        }
    }
}

/// The load that the contents of a root file begin: the file must resolve
/// to the root variant, and the names of its group files follow from its
/// group count and from its own name. A file of the group variant is no
/// root, and is not recognized as one.
pub open spec fn begun(file_name: Seq<char>, bytes: Seq<u8>) -> Result<WmoLoadView, Failure> {
    match container(bytes) {
        Err(e) => Err(e),
        Ok(chunks) => match variant_of(chunks) {
            Err(e) => Err(e),
            Ok(WmoVariantView::Group(_)) => Err(Failure::UnrecognizedVariant),
            Ok(WmoVariantView::Root(root)) => Ok(
                WmoLoadView {
                    root,
                    names: group_names(root.mohd.n_groups as nat, file_name),
                    groups: Seq::empty(),
                },
            ),
        },
    }
}

/// What was read of a file, as bytes.
pub open spec fn read_bytes(contents: Option<Vec<u8>>) -> Option<Seq<u8>> {
    match contents {
        Some(bytes) => Some(bytes@),
        None => None,
    }
}

/// The load of a world model in progress. The library decides what to
/// load; reading the files is the caller's part.
pub struct WmoLoad {
    root: WmoRootFile,
    names: Vec<String>,
    groups: Vec<WmoGroupFile>,
}

impl View for WmoLoad {
    type V = WmoLoadView;

    closed spec fn view(&self) -> WmoLoadView {
        WmoLoadView { root: self.root@, names: self.names.deep_view(), groups: self.groups@ }
    }
}

/// What the caller of a load does next.
pub enum WmoNext {
    /// Read the dependent file of this name, from the directory of the
    /// root file, and supply what was read.
    Load { load: WmoLoad, name: String },
    /// Nothing is left to read: this is the world model.
    Done(WmoFile),
}

impl WmoLoad {
    #[verifier::type_invariant]
    spec fn inv(self) -> bool {
        self.groups@.len() <= self.names@.len()
    }

    /// What to do next: load the pending file, or take the world model.
    pub fn next(self) -> (r: WmoNext)
        ensures
            match r {
                WmoNext::Load { load, name } => load@ == self@ && self@.pending() == Some(name@),
                WmoNext::Done(file) => self@.pending() is None && file@ == self@.finished(),
            },
    {
        proof {
            use_type_invariant(&self);
        }
        if self.groups.len() < self.names.len() {
            let name = self.names[self.groups.len()].clone();
            WmoNext::Load { load: self, name }
        } else {
            WmoNext::Done(WmoFile { root: self.root, groups: self.groups })
        }
    }

    /// Takes what was read of the pending file.
    pub fn supply(self, contents: Option<Vec<u8>>) -> (r: R<WmoLoad>)
        ensures
            viewed(r) == self@.supplied(read_bytes(contents)),
    {
        proof {
            use_type_invariant(&self);
        }
        if self.groups.len() >= self.names.len() {
            return Ok(self);
        }
        let loaded = match contents {
            None => None,
            Some(bytes) => match WmoFile::load_group_wmo(&bytes) {
                Ok(group) => Some(group),
                Err(_) => None,
            },
        };
        match loaded {
            None => Err(
                DecodeError::DependencyLoadFailed {
                    name: self.names[self.groups.len()].clone(),
                },
            ),
            Some(group) => {
                let WmoLoad { root, names, mut groups } = self;
                groups.push(group);
                Ok(WmoLoad { root, names, groups })
            },
        }
    }
}

impl WmoFile {
    /// Begins the load of the world model whose root file has this name
    /// and these contents.
    pub fn from_path(file_name: &str, contents: &Vec<u8>) -> (r: R<WmoLoad>)
        ensures
            viewed(r) == begun(file_name@, contents@),
    {
        let chunks = Chunk::parse(contents)?;
        let variant = WmoFileVariant::new(chunks)?;
        match variant {
            WmoFileVariant::ROOT(root) => {
                let names = WmoRootFile::get_group_names(root.mohd.n_groups, file_name);
                Ok(WmoLoad { root, names, groups: Vec::new() })
            },
            WmoFileVariant::GROUP(_) => Err(DecodeError::UnrecognizedVariant),
        }
    }

    /// Decodes the contents of a group file.
    pub fn load_group_wmo(contents: &Vec<u8>) -> (r: R<WmoGroupFile>)
        ensures
            plain(r) == group_of_bytes(contents@),
    {
        let chunks = Chunk::parse(contents)?;
        WmoGroupFile::new(chunks)
    }
}

/// A load that has begun depends on as many files as the root file counts
/// groups, has loaded none of them, and names them by their index.
pub proof fn lemma_begun_names(file_name: Seq<char>, bytes: Seq<u8>, i: int)
    requires
        begun(file_name, bytes) is Ok,
        0 <= i < begun(file_name, bytes)->Ok_0.root.mohd.n_groups,
    ensures
        begun(file_name, bytes)->Ok_0.groups.len() == 0,
        begun(file_name, bytes)->Ok_0.names.len() == begun(
            file_name,
            bytes,
        )->Ok_0.root.mohd.n_groups,
        begun(file_name, bytes)->Ok_0.names[i] == group_name(file_stem(file_name), i as nat),
{
}

/// Files that all decode as group files are taken in index order, one for
/// each name that is still pending.
pub proof fn lemma_run_loads_in_order(load: WmoLoadView, sources: Seq<Option<Seq<u8>>>)
    requires
        load.groups.len() + sources.len() <= load.names.len(),
        forall|i: int|
            0 <= i < sources.len() ==> (#[trigger] sources[i]) is Some && group_of_bytes(
                sources[i]->Some_0,
            ) is Ok,
    ensures
        load.run(sources) is Ok,
        load.run(sources)->Ok_0.root == load.root,
        load.run(sources)->Ok_0.names == load.names,
        load.run(sources)->Ok_0.groups == load.groups + Seq::new(
            sources.len(),
            |i: int| group_of_bytes(sources[i]->Some_0)->Ok_0,
        ),
    decreases sources.len(),
{
    let loaded = Seq::new(sources.len(), |i: int| group_of_bytes(sources[i]->Some_0)->Ok_0);
    if sources.len() == 0 {
        assert(load.groups + loaded =~= load.groups);
    } else {
        let next = load.supplied(sources[0])->Ok_0;
        let rest = sources.drop_first();
        assert forall|i: int| 0 <= i < rest.len() implies (#[trigger] rest[i]) is Some
            && group_of_bytes(rest[i]->Some_0) is Ok by {
            assert(rest[i] == sources[i + 1]);
        }
        lemma_run_loads_in_order(next, rest);
        let later = Seq::new(rest.len(), |i: int| group_of_bytes(rest[i]->Some_0)->Ok_0);
        assert(next.groups + later =~= load.groups + loaded);
    }
}

/// The first file that is missing or unreadable, or that does not decode
/// as a group file, fails the load: the failure names the dependent file
/// at that index, and no world model comes of the load.
pub proof fn lemma_run_fails_at_first_bad_file(
    load: WmoLoadView,
    sources: Seq<Option<Seq<u8>>>,
    k: int,
)
    requires
        0 <= k < sources.len(),
        load.groups.len() + k < load.names.len(),
        forall|i: int|
            0 <= i < k ==> (#[trigger] sources[i]) is Some && group_of_bytes(
                sources[i]->Some_0,
            ) is Ok,
        sources[k] is None || group_of_bytes(sources[k]->Some_0) is Err,
    ensures
        load.run(sources) == Err::<WmoLoadView, Failure>(
            Failure::DependencyLoadFailed { name: load.names[load.groups.len() + k] },
        ),
    decreases k,
{
    if k > 0 {
        let next = load.supplied(sources[0])->Ok_0;
        let rest = sources.drop_first();
        assert forall|i: int| 0 <= i < k - 1 implies (#[trigger] rest[i]) is Some
            && group_of_bytes(rest[i]->Some_0) is Ok by {
            assert(rest[i] == sources[i + 1]);
        }
        assert(rest[k - 1] == sources[k]);
        lemma_run_fails_at_first_bad_file(next, rest, k - 1);
    }
}

/// Loading a root file that counts `n` groups asks for exactly `n`
/// dependent files, those with the derived names, in index order: after
/// `i` of them are loaded the pending file is the one with index `i`, and
/// after `n` nothing is pending and the world model holds the `n` groups.
pub proof fn lemma_load_asks_for_each_group_once(
    file_name: Seq<char>,
    bytes: Seq<u8>,
    sources: Seq<Option<Seq<u8>>>,
)
    requires
        begun(file_name, bytes) is Ok,
        sources.len() <= begun(file_name, bytes)->Ok_0.root.mohd.n_groups,
        forall|i: int|
            0 <= i < sources.len() ==> (#[trigger] sources[i]) is Some && group_of_bytes(
                sources[i]->Some_0,
            ) is Ok,
    ensures
        begun(file_name, bytes)->Ok_0.run(sources) is Ok,
        begun(file_name, bytes)->Ok_0.run(sources)->Ok_0.groups.len() == sources.len(),
        begun(file_name, bytes)->Ok_0.run(sources)->Ok_0.pending() == if sources.len() < begun(
            file_name,
            bytes,
        )->Ok_0.root.mohd.n_groups {
            Some(group_name(file_stem(file_name), sources.len()))
        } else {
            None
        },
{
    let load = begun(file_name, bytes)->Ok_0;
    lemma_run_loads_in_order(load, sources);
}

} // verus!
