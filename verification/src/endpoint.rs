use vstd::prelude::*;

verus! {

/// The path that joining `file` onto the directory `dir` yields, as
/// `std::path::Path::join` computes it on Unix: an absolute `file` (one that
/// starts with '/') replaces the directory; otherwise `file` is appended,
/// with a '/' between the two unless `dir` is empty or already ends with '/'.
pub open spec fn joined_path(dir: Seq<char>, file: Seq<char>) -> Seq<char> {
    if file.len() > 0 && file[0] == '/' {
        file
    } else if dir.len() == 0 || dir.last() == '/' {
        dir + file
    } else {
        dir + seq!['/'] + file
    }
}

/// Calls `std::path::Path::join` on `dir` and `file` and returns the joined
/// path as text. The contract claims what the documentation of `Path::join`
/// and `PathBuf::push` gives for Unix targets, which are the targets of this
/// crate (it serves Unix domain sockets): an absolute `file` replaces `dir`,
/// and otherwise a '/' is put between the two unless `dir` is empty or ends
/// with one. Text joined onto text stays valid UTF-8, so the conversion back
/// to a string changes nothing.
#[verifier::external_body]
fn join_path(dir: &str, file: &str) -> (res: String)
    ensures
        res@ == joined_path(dir@, file@),
{
    std::path::Path::new(dir).join(file).to_string_lossy().into_owned()
}

/// What an [`Endpoint`] is: the directory of its socket and the socket's
/// file name.
pub struct EndpointView {
    pub dir: Seq<char>,
    pub file: Seq<char>,
}

impl EndpointView {
    /// The path of the socket.
    pub open spec fn path(self) -> Seq<char> {
        joined_path(self.dir, self.file)
    }
}

/// `Endpoint` defines where to listen for incoming connections: a Unix
/// domain socket named `file` inside the directory `dir`.
#[derive(Clone)]
pub struct Endpoint {
    dir: String,
    file: String,
}

impl View for Endpoint {
    type V = EndpointView;

    closed spec fn view(&self) -> EndpointView {
        EndpointView { dir: self.dir@, file: self.file@ }
    }
}

impl Endpoint {
    /// An endpoint for the socket `file` inside the directory `dir`.
    pub fn new(dir: &str, file: &str) -> (e: Endpoint)
        ensures
            e@ == (EndpointView { dir: dir@, file: file@ }),
    {
        Endpoint { dir: String::from_str(dir), file: String::from_str(file) }
    }

    /// The directory that holds the socket.
    pub fn dir(&self) -> (d: &str)
        ensures
            d@ == self@.dir,
    {
        self.dir.as_str()
    }

    /// The file name of the socket.
    pub fn file(&self) -> (f: &str)
        ensures
            f@ == self@.file,
    {
        self.file.as_str()
    }

    /// The path of the socket: the file name joined onto the directory.
    pub fn path(&self) -> (p: String)
        ensures
            p@ == self@.path(),
    {
        join_path(self.dir.as_str(), self.file.as_str())
    }
}

} // verus!
