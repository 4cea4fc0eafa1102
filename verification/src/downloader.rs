use crate::batch::{Batch, BatchView};
use crate::error::{DownloadError, ErrorView};
use crate::external::{build_client, error_text};
use crate::p3task::{P3Task, TaskView};
use vstd::prelude::*;

verus! {

/// The mathematical value of a [`Downloader`].
pub struct DownloaderView {
    /// The tasks, in the order in which they were added.
    pub tasks: Seq<TaskView>,
    /// The cap on tasks running at once.
    pub parallel: nat,
    /// The shared HTTP client, if one was installed.
    pub client: Option<reqwest::Client>,
}

/// A list of download tasks, the number of them that may run at once, and
/// the HTTP client they share.
pub struct Downloader {
    tasks: Vec<P3Task>,
    parallel: usize,
    client: Option<reqwest::Client>,
}

impl View for Downloader {
    type V = DownloaderView;

    closed spec fn view(&self) -> DownloaderView {
        DownloaderView {
            tasks: self.tasks@.map_values(|task: P3Task| task@),
            parallel: self.parallel as nat,
            client: self.client,
        }
    }
}

impl Downloader {
    #[verifier::type_invariant]
    spec fn inv(self) -> bool {
        self.parallel >= 1
    }

    /// A downloader with no task, one task at a time and no client of its
    /// own.
    pub fn new() -> (downloader: Downloader)
        ensures
            downloader@ == (DownloaderView { tasks: Seq::empty(), parallel: 1, client: None }),
    {
        let downloader = Downloader { tasks: Vec::new(), parallel: 1, client: None };
        assert(downloader@.tasks =~= Seq::empty());
        downloader
    }

    /// Sets how many tasks may run at once. Zero would never start a task
    /// and is taken as one.
    pub fn parallel(&mut self, n: usize) -> (this: &mut Self)
        ensures
            *final(self) == *final(this),
            this@ == (DownloaderView {
                parallel: if n == 0 {
                    1
                } else {
                    n as nat
                },
                ..old(self)@
            }),
    {
        self.parallel = if n == 0 {
            1
        } else {
            n
        };
        self
    }

    /// Installs the HTTP client that all tasks share.
    pub fn client(&mut self, c: reqwest::Client) -> (this: &mut Self)
        ensures
            *final(self) == *final(this),
            this@ == (DownloaderView { client: Some(c), ..old(self)@ }),
    {
        proof {
            use_type_invariant(&*self);
        }
        self.client = Some(c);
        self
    }

    /// Adds a task at the end of the list.
    pub fn add_task(&mut self, t: P3Task) -> (this: &mut Self)
        ensures
            *final(self) == *final(this),
            this@ == (DownloaderView { tasks: old(self)@.tasks.push(t@), ..old(self)@ }),
    {
        proof {
            use_type_invariant(&*self);
        }
        let mut taken = Downloader::new();
        core::mem::swap(self, &mut taken);
        let Downloader { mut tasks, parallel, client } = taken;
        tasks.push(t);
        *self = Downloader { tasks, parallel, client };
        assert(self@.tasks =~= old(self)@.tasks.push(t@));
        self
    }

    /// The tasks, in the order in which they were added.
    pub fn tasks(&self) -> (tasks: &Vec<P3Task>)
        ensures
            tasks@.map_values(|task: P3Task| task@) == self@.tasks,
    {
        &self.tasks
    }

    /// The number of tasks.
    pub fn task_count(&self) -> (count: usize)
        ensures
            count == self@.tasks.len(),
    {
        self.tasks.len()
    }

    /// The cap on tasks running at once; at least one.
    pub fn parallelism(&self) -> (cap: usize)
        ensures
            cap == self@.parallel,
            cap >= 1,
    {
        proof {
            use_type_invariant(self);
        }
        self.parallel
    }

    /// The `User-Agent` of the client that is built where none was
    /// installed.
    pub fn default_user_agent() -> (agent: &'static str)
        ensures
            agent@ == "hyper/0.14.16"@,
    {
        "hyper/0.14.16"
    }

    /// Settles which client a download uses once the default client has
    /// been tried: the client if it was built, else the reason as an
    /// infrastructure error.
    pub fn settle_client(built: Result<reqwest::Client, String>) -> (client: Result<
        reqwest::Client,
        DownloadError,
    >)
        ensures
            match built {
                Ok(c) => client == Ok::<reqwest::Client, DownloadError>(c),
                Err(reason) => client matches Err(error) && error@ == ErrorView::Infrastructure(
                    reason@,
                ),
            },
    {
        match built {
            Ok(c) => Ok(c),
            Err(reason) => Err(DownloadError::Infrastructure(reason)),
        }
    }

    /// The client that a download uses: the installed one, or else a client
    /// built for the occasion that names itself `default_user_agent()`.
    /// With a client installed this cannot fail. Without one it fails
    /// exactly when the client cannot be built, and then with an
    /// infrastructure error.
    pub fn http_client(&self) -> (client: Result<reqwest::Client, DownloadError>)
        ensures
            self@.client matches Some(c) ==> client == Ok::<reqwest::Client, DownloadError>(c),
            client matches Err(error) ==> self@.client is None && error@ is Infrastructure,
    {
        match &self.client {
            Some(c) => Ok(c.clone()),
            None => {
                let built = match build_client(Self::default_user_agent()) {
                    Ok(c) => Ok(c),
                    Err(error) => Err(error_text(&error)),
                };
                Self::settle_client(built)
            },
        }
    }

    /// Begins a download of all tasks: the returned schedule has every task
    /// waiting and starts at most `parallelism()` of them at once, in list
    /// order.
    pub fn download(&self) -> (batch: Batch)
        ensures
            batch@ == BatchView::initial(self@.tasks.len(), self@.parallel),
            batch@.wf(),
    {
        Batch::new(self.tasks.len(), self.parallel)
    }
}

impl Downloader {
    /// The tasks that a list of (address, destination) pairs stands for.
    pub open spec fn tasks_of_pairs(pairs: Seq<(String, String)>) -> Seq<TaskView> {
        pairs.map_values(|pair: (String, String)| TaskView { url: pair.0@, path: pair.1@ })
    }

    /// The tasks that a list of borrowed (address, destination) pairs
    /// stands for.
    pub open spec fn tasks_of_str_pairs(pairs: Seq<(&str, &str)>) -> Seq<TaskView> {
        pairs.map_values(|pair: (&str, &str)| TaskView { url: pair.0@, path: pair.1@ })
    }

    /// A downloader with one task for each (address, destination) pair, in
    /// the order of the pairs; one task at a time and no client of its own.
    pub fn from_pairs(pairs: &[(String, String)]) -> (downloader: Downloader)
        ensures
            downloader@ == (DownloaderView {
                tasks: Self::tasks_of_pairs(pairs@),
                parallel: 1,
                client: None,
            }),
    {
        let mut downloader = Downloader::new();
        let mut taken: usize = 0;
        assert(Self::tasks_of_pairs(pairs@.take(0)) =~= Seq::empty());
        while taken < pairs.len()
            invariant
                taken <= pairs.len(),
                downloader@ == (DownloaderView {
                    tasks: Self::tasks_of_pairs(pairs@.take(taken as int)),
                    parallel: 1,
                    client: None,
                }),
            decreases pairs.len() - taken,
        {
            let pair = &pairs[taken];
            downloader.add_task(P3Task::from_str(pair.0.as_str(), pair.1.as_str()));
            assert(Self::tasks_of_pairs(pairs@.take(taken + 1)) =~= Self::tasks_of_pairs(
                pairs@.take(taken as int),
            ).push(TaskView { url: pair.0@, path: pair.1@ }));
            taken += 1;
        }
        assert(pairs@.take(taken as int) =~= pairs@);
        downloader
    }

    /// A downloader with one task for each borrowed (address, destination)
    /// pair, in the order of the pairs; one task at a time and no client of
    /// its own.
    pub fn from_str_pairs(pairs: &[(&str, &str)]) -> (downloader: Downloader)
        ensures
            downloader@ == (DownloaderView {
                tasks: Self::tasks_of_str_pairs(pairs@),
                parallel: 1,
                client: None,
            }),
    {
        let mut downloader = Downloader::new();
        let mut taken: usize = 0;
        assert(Self::tasks_of_str_pairs(pairs@.take(0)) =~= Seq::empty());
        while taken < pairs.len()
            invariant
                taken <= pairs.len(),
                downloader@ == (DownloaderView {
                    tasks: Self::tasks_of_str_pairs(pairs@.take(taken as int)),
                    parallel: 1,
                    client: None,
                }),
            decreases pairs.len() - taken,
        {
            let pair = &pairs[taken];
            downloader.add_task(P3Task::from_str(pair.0, pair.1));
            assert(Self::tasks_of_str_pairs(pairs@.take(taken + 1)) =~= Self::tasks_of_str_pairs(
                pairs@.take(taken as int),
            ).push(TaskView { url: pair.0@, path: pair.1@ }));
            taken += 1;
        }
        assert(pairs@.take(taken as int) =~= pairs@);
        downloader
    }
}

impl From<Vec<P3Task>> for Downloader {
    /// A downloader of `tasks`, in their order; one task at a time and no
    /// client of its own.
    fn from(tasks: Vec<P3Task>) -> (downloader: Downloader)
        ensures
            downloader@ == (DownloaderView {
                tasks: tasks@.map_values(|task: P3Task| task@),
                parallel: 1,
                client: None,
            }),
    {
        Downloader { tasks, parallel: 1, client: None }
    }
}

impl vstd::std_specs::convert::FromSpecImpl<Vec<P3Task>> for Downloader {
    open spec fn obeys_from_spec() -> bool {
        true
    }

    closed spec fn from_spec(tasks: Vec<P3Task>) -> Downloader {
        Downloader { tasks, parallel: 1, client: None }
    }
}

impl Default for Downloader {
    fn default() -> (downloader: Downloader)
        ensures
            downloader@ == (DownloaderView { tasks: Seq::empty(), parallel: 1, client: None }),
    {
        Downloader::new()
    }
}

} // verus!
