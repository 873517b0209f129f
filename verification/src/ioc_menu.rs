//! The indicator selector: which kinds of indicators are ticked, and in which
//! format their lists are kept.

use vstd::prelude::*;
use vstd::string::StringExecFns;
use crate::ioc::pair_views;
use crate::text::strs;

verus! {

/// The format of the indicator lists.
#[derive(Clone, Copy, Debug, PartialEq, Eq, Structural)]
pub enum OutputFormat {
    Txt,
    Csv,
}

/// The state of the indicator selector.
#[derive(Debug)]
pub struct IOCSelectorApp {
    pub ioc_types: Vec<&'static str>,
    pub selected: Vec<bool>,
    pub output_format: OutputFormat,
    /// The output folder the user chose, if any.
    pub custom_path: Option<String>,
    /// Whether the user is being asked about files that exist already.
    pub confirm_overwrite: bool,
    /// The URLs that wait for that answer, each with its kind of indicator.
    pub pending_urls: Option<Vec<(String, String)>>,
    /// The URLs whose file exists already.
    pub overwrite_queue: Vec<(String, String)>,
    /// How far the user has come in that queue.
    pub overwrite_index: usize,
    pub yes_all: bool,
    pub skip_all: bool,
}

/// The kinds of indicators on offer.
pub open spec fn default_ioc_types() -> Seq<Seq<char>> {
    seq![
        "Filename"@,
        "SHA256"@,
        "SHA1"@,
        "MD5"@,
        "IP"@,
        "Domain"@,
        "URL"@,
        "Email"@,
        "Registry"@,
    ]
}

impl Default for IOCSelectorApp {
    fn default() -> (app: Self)
        ensures
            app.is_fresh(),
            app.well_formed(),
    {
        let ioc_types = vec![
            "Filename",
            "SHA256",
            "SHA1",
            "MD5",
            "IP",
            "Domain",
            "URL",
            "Email",
            "Registry",
        ];
        let selected = vec![false, false, false, false, false, false, false, false, false];
        assert(strs(ioc_types@) =~= default_ioc_types());
        assert(selected@ =~= Seq::new(9, |i: int| false));
        IOCSelectorApp {
            ioc_types,
            selected,
            output_format: OutputFormat::Txt,
            custom_path: None,
            confirm_overwrite: false,
            pending_urls: None,
            overwrite_queue: Vec::new(),
            overwrite_index: 0,
            yes_all: false,
            skip_all: false,
        }
    }
}

/// The folder that takes the indicator lists where the user chose none.
pub const DEFAULT_IOC_PATH: &'static str = "ioc_output";

/// The first `n` names whose box is ticked, in order.
pub open spec fn picked(names: Seq<Seq<char>>, selected: Seq<bool>, n: int) -> Seq<Seq<char>>
    decreases n,
{
    if n <= 0 {
        seq![]
    } else if selected[n - 1] {
        picked(names, selected, n - 1).push(names[n - 1])
    } else {
        picked(names, selected, n - 1)
    }
}

/// Those of the first `n` URLs whose file exists already, in order.
pub open spec fn conflicting(
    urls: Seq<(Seq<char>, Seq<char>)>,
    exists: Seq<bool>,
    n: int,
) -> Seq<(Seq<char>, Seq<char>)>
    decreases n,
{
    if n <= 0 {
        seq![]
    } else if exists[n - 1] {
        conflicting(urls, exists, n - 1).push(urls[n - 1])
    } else {
        conflicting(urls, exists, n - 1)
    }
}

impl IOCSelectorApp {
    /// The selector as it starts: every kind on offer, nothing ticked, text
    /// lists, no folder chosen, and nothing asked or waiting.
    pub open spec fn is_fresh(&self) -> bool {
        &&& strs(self.ioc_types@) == default_ioc_types()
        &&& self.selected@ == Seq::new(9, |i: int| false)
        &&& self.output_format == OutputFormat::Txt
        &&& self.custom_path is None
        &&& !self.confirm_overwrite
        &&& self.pending_urls is None
        &&& self.overwrite_queue@.len() == 0
        &&& self.overwrite_index == 0
        &&& !self.yes_all
        &&& !self.skip_all
    }

    /// Every kind has its box.
    pub open spec fn well_formed(&self) -> bool {
        self.selected@.len() == self.ioc_types@.len()
    }

    /// Whether the user is to be asked about a file that exists already.
    pub open spec fn asking(&self) -> bool {
        self.overwrite_queue@.len() > 0 && self.overwrite_index < self.overwrite_queue@.len()
    }

    /// The URLs that wait, none where nothing waits.
    pub open spec fn waiting(&self) -> Seq<(Seq<char>, Seq<char>)> {
        match self.pending_urls {
            Some(urls) => pair_views(urls@),
            None => seq![],
        }
    }

    /// Whether `other` shows the same kinds, ticks, format and folder.
    pub open spec fn same_choice(&self, other: &Self) -> bool {
        &&& self.ioc_types == other.ioc_types
        &&& self.selected == other.selected
        &&& self.output_format == other.output_format
        &&& self.custom_path == other.custom_path
    }

    /// Says whether the user is to be asked about a file that exists already.
    pub fn is_asking(&self) -> (asking: bool)
        ensures
            asking == self.asking(),
    {
        self.overwrite_queue.len() > 0 && self.overwrite_index < self.overwrite_queue.len()
    }

    /// The kinds whose box is ticked, in order.
    pub fn selected_types(&self) -> (out: Vec<&'static str>)
        requires
            self.well_formed(),
        ensures
            strs(out@) == picked(
                strs(self.ioc_types@),
                self.selected@,
                self.selected@.len() as int,
            ),
    {
        let ghost names = strs(self.ioc_types@);
        let mut out: Vec<&'static str> = Vec::new();
        let mut i: usize = 0;
        assert(strs(out@) =~= picked(names, self.selected@, 0));
        while i < self.ioc_types.len()
            invariant
                i <= self.ioc_types.len(),
                self.well_formed(),
                names == strs(self.ioc_types@),
                strs(out@) == picked(names, self.selected@, i as int),
            decreases self.ioc_types.len() - i,
        {
            if self.selected[i] {
                out.push(self.ioc_types[i]);
                assert(strs(out@) =~= picked(names, self.selected@, i as int).push(
                    names[i as int],
                ));
            }
            i += 1;
        }
        out
    }

    /// The folder that takes the lists: the one the user chose, else
    /// [`DEFAULT_IOC_PATH`].
    pub fn output_path(&self) -> (path: String)
        ensures
            path@ == match self.custom_path {
                Some(p) => p@,
                None => DEFAULT_IOC_PATH@,
            },
    {
        match &self.custom_path {
            Some(p) => p.clone(),
            None => String::from_str(DEFAULT_IOC_PATH),
        }
    }

    /// Takes the URLs of a new run, `exists[i]` saying whether the file that
    /// `urls[i]` goes into is there already. Without such a file the URLs are
    /// handed back to be fetched at once. Otherwise they wait, the URLs in
    /// conflict are queued, and the user is asked.
    pub fn begin(&mut self, urls: Vec<(String, String)>, exists: &Vec<bool>) -> (ready: Option<
        Vec<(String, String)>,
    >)
        requires
            exists@.len() == urls@.len(),
        ensures
            final(self).same_choice(old(self)),
            final(self).yes_all == old(self).yes_all,
            final(self).skip_all == old(self).skip_all,
            final(self).overwrite_index == old(self).overwrite_index,
            pair_views(final(self).overwrite_queue@) == conflicting(
                pair_views(urls@),
                exists@,
                urls@.len() as int,
            ),
            final(self).overwrite_queue@.len() == 0 ==> {
                &&& ready == Some(urls)
                &&& final(self).pending_urls == old(self).pending_urls
                &&& final(self).confirm_overwrite == old(self).confirm_overwrite
            },
            final(self).overwrite_queue@.len() > 0 ==> {
                &&& ready is None
                &&& final(self).pending_urls == Some(urls)
                &&& final(self).confirm_overwrite
            },
    {
        let ghost all = pair_views(urls@);
        let mut queue: Vec<(String, String)> = Vec::new();
        let mut i: usize = 0;
        assert(pair_views(queue@) =~= conflicting(all, exists@, 0));
        while i < urls.len()
            invariant
                i <= urls.len(),
                exists@.len() == urls@.len(),
                all == pair_views(urls@),
                pair_views(queue@) == conflicting(all, exists@, i as int),
            decreases urls.len() - i,
        {
            if exists[i] {
                let pair = (urls[i].0.clone(), urls[i].1.clone());
                queue.push(pair);
                assert(pair_views(queue@) =~= conflicting(all, exists@, i as int).push(
                    all[i as int],
                ));
            }
            i += 1;
        }
        self.overwrite_queue = queue;
        if self.overwrite_queue.len() > 0 {
            self.pending_urls = Some(urls);
            self.confirm_overwrite = true;
            None
        } else {
            Some(urls)
        }
    }

    /// Takes the answer "overwrite", given for the queue as a whole, or for
    /// this and every later run where `for_all` is set: the queued URLs join
    /// those that wait, and the queue is done with.
    pub fn on_overwrite(&mut self, for_all: bool)
        ensures
            final(self).same_choice(old(self)),
            final(self).waiting() == old(self).waiting() + pair_views(old(self).overwrite_queue@),
            final(self).pending_urls is Some,
            final(self).overwrite_queue@.len() == 0,
            final(self).overwrite_index == 0,
            !final(self).confirm_overwrite,
            final(self).yes_all == (old(self).yes_all || for_all),
            final(self).skip_all == old(self).skip_all,
    {
        if for_all {
            self.yes_all = true;
        }
        let mut waiting = match self.pending_urls.take() {
            Some(urls) => urls,
            None => Vec::new(),
        };
        let ghost before = pair_views(waiting@);
        let ghost queued = pair_views(self.overwrite_queue@);
        assert(before == old(self).waiting());
        waiting.append(&mut self.overwrite_queue);
        assert(pair_views(waiting@) =~= before + queued);
        self.pending_urls = Some(waiting);
        self.overwrite_index = 0;
        self.confirm_overwrite = false;
    }

    /// Takes the answer "skip" for the URL the user is asked about, which
    /// moves on to the next. Where nothing is asked, nothing changes.
    pub fn on_skip(&mut self)
        ensures
            final(self).overwrite_index == if old(self).asking() {
                old(self).overwrite_index + 1
            } else {
                old(self).overwrite_index as int
            },
            final(self).same_choice(old(self)),
            final(self).pending_urls == old(self).pending_urls,
            final(self).overwrite_queue == old(self).overwrite_queue,
            final(self).confirm_overwrite == old(self).confirm_overwrite,
            final(self).yes_all == old(self).yes_all,
            final(self).skip_all == old(self).skip_all,
    {
        let queued = self.overwrite_queue.len();
        if queued > 0 && self.overwrite_index < queued {
            self.overwrite_index = self.overwrite_index + 1;
        }
    }

    /// Takes the answer "skip all", which passes over the rest of the queue.
    pub fn on_skip_all(&mut self)
        ensures
            final(self).skip_all,
            final(self).overwrite_index == old(self).overwrite_queue@.len(),
            final(self).same_choice(old(self)),
            final(self).pending_urls == old(self).pending_urls,
            final(self).overwrite_queue == old(self).overwrite_queue,
            final(self).confirm_overwrite == old(self).confirm_overwrite,
            final(self).yes_all == old(self).yes_all,
    {
        self.skip_all = true;
        self.overwrite_index = self.overwrite_queue.len();
    }

    /// Hands out the URLs that wait, once the queue has been gone through;
    /// the queue is then emptied and the asking is over. While the user is
    /// still to be asked, nothing is handed out and nothing changes.
    pub fn take_ready(&mut self) -> (ready: Option<Vec<(String, String)>>)
        ensures
            final(self).same_choice(old(self)),
            final(self).yes_all == old(self).yes_all,
            final(self).skip_all == old(self).skip_all,
            old(self).overwrite_index < old(self).overwrite_queue@.len() ==> {
                &&& ready is None
                &&& final(self).pending_urls == old(self).pending_urls
                &&& final(self).overwrite_queue == old(self).overwrite_queue
                &&& final(self).overwrite_index == old(self).overwrite_index
                &&& final(self).confirm_overwrite == old(self).confirm_overwrite
            },
            old(self).overwrite_index >= old(self).overwrite_queue@.len() ==> {
                &&& ready is Some
                &&& pair_views(ready->Some_0@) == old(self).waiting()
                &&& final(self).pending_urls is None
                &&& final(self).overwrite_queue@.len() == 0
                &&& final(self).overwrite_index == 0
                &&& !final(self).confirm_overwrite
            },
    {
        if self.overwrite_index >= self.overwrite_queue.len() {
            let urls = match self.pending_urls.take() {
                Some(urls) => urls,
                None => Vec::new(),
            };
            self.overwrite_queue.clear();
            self.overwrite_index = 0;
            self.confirm_overwrite = false;
            assert(pair_views(urls@) =~= old(self).waiting());
            Some(urls)
        } else {
            None
        }
    }
}

} // verus!
