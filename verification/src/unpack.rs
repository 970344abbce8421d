use vstd::prelude::*;
use vstd::string::*;
use crate::operations::strings_view;
use crate::paths::{join, join_path, parent, parent_path};

verus! {

/// How one packed entry is brought back: a file from its encrypted chunks, a directory,
/// or a symbolic link to the given target.
pub enum UnpackKind {
    File { compression_info: String, chunk_locations: Vec<String> },
    Directory,
    Symlink(String),
}

/// What unpacking does for one entry.
pub enum UnpackStep {
    /// The file is already there; it is left alone.
    AlreadyThere(String),
    /// Create `folder`, then write `target` from the chunks read in order.
    WriteFile { target: String, folder: String, chunks: Vec<String> },
    /// Create this directory and its parents.
    MakeDirectory(String),
    /// Make a symbolic link at `link` that points to `target`.
    Link { link: String, target: String },
}

/// The only compression that unpacking decodes.
pub open spec fn zstd() -> Seq<char> {
    "ZSTD"@
}

/// The chunk files of a packed file, each under the packed folder.
pub open spec fn chunk_paths(input_dir: Seq<char>, chunks: Seq<Seq<char>>) -> Seq<Seq<char>> {
    chunks.map_values(|c: Seq<char>| join(input_dir, c))
}

/// Decides how the entry packed from `original_location` is unpacked under `output_dir`,
/// given whether its place there already exists. A file is decoded from its chunks in
/// `input_dir`; it must use the ZSTD compression and have a parent folder.
pub fn unpack_step(
    input_dir: &str,
    output_dir: &str,
    original_location: &str,
    kind: &UnpackKind,
    target_exists: bool,
) -> (res: UnpackStep)
    requires
        !target_exists ==> (kind matches UnpackKind::File { compression_info, .. } ==> compression_info@ == zstd()),
        !target_exists && kind is File ==> parent(join(output_dir@, original_location@)) is Some,
    ensures
        match *kind {
            UnpackKind::File { chunk_locations, .. } => if target_exists {
                res matches UnpackStep::AlreadyThere(t) && t@ == join(output_dir@, original_location@)
            } else {
                res matches UnpackStep::WriteFile { target, folder, chunks } && {
                    &&& target@ == join(output_dir@, original_location@)
                    &&& Some(folder@) == parent(target@)
                    &&& strings_view(chunks@) == chunk_paths(input_dir@, strings_view(chunk_locations@))
                }
            },
            UnpackKind::Directory => res matches UnpackStep::MakeDirectory(t)
                && t@ == join(output_dir@, original_location@),
            UnpackKind::Symlink(to) => res matches UnpackStep::Link { link, target }
                && link@ == join(output_dir@, original_location@) && target@ == to@,
        },
{
    let target = join_path(output_dir, original_location);
    match kind {
        UnpackKind::File { compression_info: _, chunk_locations } => {
            if target_exists {
                return UnpackStep::AlreadyThere(target);
            }
            let folder = parent_path(target.as_str()).unwrap();
            let mut chunks: Vec<String> = Vec::new();
            let n = chunk_locations.len();
            for i in 0..n
                invariant
                    n == chunk_locations@.len(),
                    strings_view(chunks@) =~= chunk_paths(input_dir@, strings_view(chunk_locations@.take(i as int))),
            {
                let ghost before = strings_view(chunks@);
                let piece = join_path(input_dir, chunk_locations[i].as_str());
                chunks.push(piece);
                let ghost prev = strings_view(chunk_locations@.take(i as int));
                assert(strings_view(chunk_locations@.take(i + 1)) =~= prev.push(chunk_locations@[i as int]@));
                assert(strings_view(chunks@) =~= before.push(piece@));
                assert(chunk_paths(input_dir@, prev.push(chunk_locations@[i as int]@))
                    =~= chunk_paths(input_dir@, prev).push(join(input_dir@, chunk_locations@[i as int]@)));
            }
            assert(chunk_locations@.take(n as int) =~= chunk_locations@);
            UnpackStep::WriteFile { target, folder, chunks }
        },
        UnpackKind::Directory => UnpackStep::MakeDirectory(target),
        UnpackKind::Symlink(to) => UnpackStep::Link { link: target, target: to.clone() },
    }
}

} // verus!
