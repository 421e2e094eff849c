//! Where opening an entry leads, and how the run of a child program in
//! place of the screen turns out.
use vstd::prelude::*;
use vstd::string::*;

verus! {

/// The type of a file as its metadata gives it.
#[derive(Clone, Copy, Debug, PartialEq, Eq, Structural)]
pub enum FileType {
    Symlink,
    Directory,
    File,
    /// Anything else (a socket, a device, ...).
    Other,
}

/// A read of a path's metadata: the file type, or the error, which may say
/// that nothing is there.
pub enum MetaRead {
    Read(FileType),
    NotFound(String),
    Failed(String),
}

/// The mathematical content of a [`MetaRead`].
pub enum MetaReadModel {
    Read(FileType),
    NotFound(Seq<char>),
    Failed(Seq<char>),
}

impl View for MetaRead {
    type V = MetaReadModel;

    open spec fn view(&self) -> MetaReadModel {
        match self {
            MetaRead::Read(t) => MetaReadModel::Read(*t),
            MetaRead::NotFound(e) => MetaReadModel::NotFound(e@),
            MetaRead::Failed(e) => MetaReadModel::Failed(e@),
        }
    }
}

/// What opening an entry leads to.
pub enum OpenTarget {
    /// Enter this directory.
    Directory(String),
    /// Edit this file.
    File(String),
}

/// The mathematical content of an [`OpenTarget`].
pub enum OpenTargetModel {
    Directory(Seq<char>),
    File(Seq<char>),
}

impl View for OpenTarget {
    type V = OpenTargetModel;

    open spec fn view(&self) -> OpenTargetModel {
        match self {
            OpenTarget::Directory(p) => OpenTargetModel::Directory(p@),
            OpenTarget::File(p) => OpenTargetModel::File(p@),
        }
    }
}

/// The error text of a metadata read that failed.
pub open spec fn read_error(m: MetaReadModel) -> Seq<char> {
    match m {
        MetaReadModel::NotFound(e) => e,
        MetaReadModel::Failed(e) => e,
        MetaReadModel::Read(_) => Seq::empty(),
    }
}

/// Where opening `path` leads, from the metadata of the path itself
/// (`link`), the metadata of what it points to (`target`) and its canonical
/// form (`canonical`): a link is followed, to the canonical directory or to
/// the file itself; a dangling link, another type of file, or an error
/// stops the opening with a message.
pub open spec fn open_target(
    path: Seq<char>,
    link: MetaReadModel,
    target: MetaReadModel,
    canonical: Result<Seq<char>, Seq<char>>,
) -> Result<OpenTargetModel, Seq<char>> {
    match link {
        MetaReadModel::Read(FileType::Symlink) => match target {
            MetaReadModel::NotFound(_) => Err("open: broken symlink: "@ + path),
            MetaReadModel::Failed(e) => Err("open: "@ + path + ": "@ + e),
            MetaReadModel::Read(t) => if t == FileType::Directory {
                match canonical {
                    Ok(c) => Ok(OpenTargetModel::Directory(c)),
                    Err(e) => Err("open: "@ + path + ": "@ + e),
                }
            } else if t == FileType::File {
                Ok(OpenTargetModel::File(path))
            } else {
                Err("open: unsupported file type: "@ + path)
            },
        },
        MetaReadModel::Read(FileType::Directory) => Ok(OpenTargetModel::Directory(path)),
        MetaReadModel::Read(FileType::File) => Ok(OpenTargetModel::File(path)),
        MetaReadModel::Read(FileType::Other) => Err("open: unsupported file type: "@ + path),
        _ => Err("open: "@ + path + ": "@ + read_error(link)),
    }
}

/// Where opening `path` leads (see [`open_target`]).
pub fn resolve_open_target(path: &str, link: MetaRead, target: MetaRead, canonical: Result<String, String>) -> (r: Result<OpenTarget, String>)
    ensures
        match r {
            Ok(t) => open_target(path@, link@, target@, match canonical { Ok(c) => Ok(c@), Err(e) => Err(e@) }) == Ok::<OpenTargetModel, Seq<char>>(t@),
            Err(e) => open_target(path@, link@, target@, match canonical { Ok(c) => Ok(c@), Err(e) => Err(e@) }) == Err::<OpenTargetModel, Seq<char>>(e@),
        },
{
    let failed = |e: &str| -> (m: String)
        ensures
            m@ == "open: "@ + path@ + ": "@ + e@,
    { String::from_str("open: ").concat(path).concat(": ").concat(e) };
    match link {
        MetaRead::NotFound(e) => Err(failed(e.as_str())),
        MetaRead::Failed(e) => Err(failed(e.as_str())),
        MetaRead::Read(FileType::Symlink) => match target {
            MetaRead::NotFound(_) => Err(String::from_str("open: broken symlink: ").concat(path)),
            MetaRead::Failed(e) => Err(failed(e.as_str())),
            MetaRead::Read(FileType::Directory) => match canonical {
                Ok(c) => Ok(OpenTarget::Directory(c)),
                Err(e) => Err(failed(e.as_str())),
            },
            MetaRead::Read(FileType::File) => Ok(OpenTarget::File(String::from_str(path))),
            MetaRead::Read(_) => Err(String::from_str("open: unsupported file type: ").concat(path)),
        },
        MetaRead::Read(FileType::Directory) => Ok(OpenTarget::Directory(String::from_str(path))),
        MetaRead::Read(FileType::File) => Ok(OpenTarget::File(String::from_str(path))),
        MetaRead::Read(FileType::Other) => Err(String::from_str("open: unsupported file type: ").concat(path)),
    }
}

/// How the run of `program` in place of the screen turns out, from the
/// result of running it and that of bringing the screen back: its exit
/// code when both went well, else the error, both errors together when
/// both failed.
pub open spec fn run_outcome(
    program: Seq<char>,
    status: Result<Option<i32>, Seq<char>>,
    restore: Result<(), Seq<char>>,
) -> Result<Option<i32>, Seq<char>> {
    match (status, restore) {
        (Ok(code), Ok(())) => Ok(code),
        (Err(e), Ok(())) => Err(e),
        (Ok(_), Err(r)) => Err(r),
        (Err(e), Err(r)) => Err(r + "; also failed to run "@ + program + ": "@ + e),
    }
}

/// How the run of `program` turns out (see [`run_outcome`]).
pub fn program_outcome(program: &str, status: Result<Option<i32>, String>, restore: Result<(), String>) -> (r: Result<Option<i32>, String>)
    ensures
        match r {
            Ok(c) => run_outcome(program@, crate::commands::run_view(status), match restore { Ok(()) => Ok(()), Err(e) => Err(e@) }) == Ok::<Option<i32>, Seq<char>>(c),
            Err(m) => run_outcome(program@, crate::commands::run_view(status), match restore { Ok(()) => Ok(()), Err(e) => Err(e@) }) == Err::<Option<i32>, Seq<char>>(m@),
        },
{
    match (status, restore) {
        (Ok(code), Ok(())) => Ok(code),
        (Err(e), Ok(())) => Err(e),
        (Ok(_), Err(r)) => Err(r),
        (Err(e), Err(r)) => Err(r.concat("; also failed to run ").concat(program).concat(": ").concat(e.as_str())),
    }
}

} // verus!
