use crate::external::{file_name_of, path_file_name};
use crate::text::text_of;
use crate::transfer::{Transfer, TransferView};
use vstd::prelude::*;

verus! {

/// One download: where to fetch from and where to store the result. A task
/// does not change once it is made.
#[derive(Debug)]
pub struct P3Task {
    url: String,
    path: String,
}

/// The mathematical value of a [`P3Task`].
pub struct TaskView {
    pub url: Seq<char>,
    pub path: Seq<char>,
}

impl TaskView {
    /// The name that labels the task's progress: the file name of its
    /// destination, if it has one.
    pub open spec fn file_name(self) -> Option<Seq<char>> {
        file_name_of(self.path)
    }

    /// The transfer that a download of the task begins with.
    pub open spec fn transfer(self) -> TransferView {
        TransferView::initial(self.url, self.path, self.file_name())
    }
}

impl View for P3Task {
    type V = TaskView;

    closed spec fn view(&self) -> TaskView {
        TaskView { url: self.url@, path: self.path@ }
    }
}

impl P3Task {
    /// A task with an empty address and an empty destination.
    pub fn new() -> (task: P3Task)
        ensures
            task@ == (TaskView { url: Seq::empty(), path: Seq::empty() }),
    {
        P3Task { url: String::new(), path: String::new() }
    }

    /// A task that fetches `url` and stores it at `path`.
    pub fn from(url: String, path: String) -> (task: P3Task)
        ensures
            task@ == (TaskView { url: url@, path: path@ }),
    {
        P3Task { url, path }
    }

    /// A task that fetches `url` and stores it at `path`, copying both.
    pub fn from_str(url: &str, path: &str) -> (task: P3Task)
        ensures
            task@ == (TaskView { url: url@, path: path@ }),
    {
        P3Task { url: url.to_owned(), path: path.to_owned() }
    }

    /// The address the task fetches from.
    pub fn url(&self) -> (url: &str)
        ensures
            url@ == self@.url,
    {
        self.url.as_str()
    }

    /// The destination the task writes to.
    pub fn path(&self) -> (path: &str)
        ensures
            path@ == self@.path,
    {
        self.path.as_str()
    }

    /// The file name of the destination, or `None` if it has none.
    pub fn file_name(&self) -> (name: Option<String>)
        ensures
            text_of(name) == self@.file_name(),
    {
        path_file_name(self.path.as_str())
    }

    /// Begins the download: the returned transfer is pending and
    /// decides every later step. A destination without a file name is found
    /// out only once the response headers are in, as the transfer says.
    pub fn download(&self) -> (transfer: Transfer)
        ensures
            transfer@ == self@.transfer(),
    {
        let name = self.file_name();
        Transfer::new(self.url.clone(), self.path.clone(), name)
    }
}

impl Default for P3Task {
    fn default() -> (task: P3Task)
        ensures
            task@ == (TaskView { url: Seq::empty(), path: Seq::empty() }),
    {
        P3Task::new()
    }
}

} // verus!
