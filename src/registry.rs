use vstd::prelude::*;

use crate::error::MetricsError;

verus! {

/// The list of registered names after asking to register `name` on top of
/// `names`: a name that is already there leaves the list as it is, a new one
/// goes to the end.
pub open spec fn add_name(names: Seq<Seq<char>>, name: Seq<char>) -> Seq<Seq<char>> {
    if names.contains(name) {
        names
    } else {
        names.push(name)
    }
}

/// One registered histogram: its name, its help text, and the family that
/// holds one histogram per label-set.
pub struct Entry<F> {
    pub name: String,
    pub help: String,
    pub family: F,
}

/// An ordered catalog of histogram families, keyed by unique names.
///
/// The order of the entries is the order in which they were registered, and
/// it is the order in which they are listed and emitted.
pub struct HistogramRegistry<F> {
    entries: Vec<Entry<F>>,
}

impl<F> HistogramRegistry<F> {
    /// The entries, in registration order.
    pub closed spec fn entries(&self) -> Seq<Entry<F>> {
        self.entries@
    }

    /// The registered names, in registration order.
    pub open spec fn names(&self) -> Seq<Seq<char>> {
        self.entries().map_values(|e: Entry<F>| e.name@)
    }

    /// The help texts, in registration order.
    pub open spec fn helps(&self) -> Seq<Seq<char>> {
        self.entries().map_values(|e: Entry<F>| e.help@)
    }

    /// The families, in registration order.
    pub open spec fn families(&self) -> Seq<F> {
        self.entries().map_values(|e: Entry<F>| e.family)
    }

    /// No name is registered twice.
    pub open spec fn wf(&self) -> bool {
        self.names().no_duplicates()
    }

    /// An empty registry.
    pub fn new() -> (r: Self)
        ensures
            r.wf(),
            r.entries().len() == 0,
    {
        HistogramRegistry { entries: Vec::new() }
    }

    /// The number of registered histograms.
    pub fn len(&self) -> (r: usize)
        ensures
            r == self.entries().len(),
    {
        self.entries.len()
    }

    /// Where `name` stands in the registration order, if it is registered.
    pub fn position(&self, name: &str) -> (r: Option<usize>)
        ensures
            match r {
                Some(i) => i < self.names().len() && self.names()[i as int] == name@,
                None => !self.names().contains(name@),
            },
    {
        let key = name.to_owned();
        let mut i: usize = 0;
        while i < self.entries.len()
            invariant
                key@ == name@,
                i <= self.entries@.len(),
                forall|j: int| 0 <= j < i ==> self.entries@[j].name@ != name@,
            decreases self.entries@.len() - i,
        {
            if self.entries[i].name == key {
                return Some(i);
            }
            i = i + 1;
        }
        proof {
            assert forall|j: int| 0 <= j < self.names().len() implies self.names()[j] != name@ by {
                assert(self.names()[j] == self.entries@[j].name@);
            }
        }
        None
    }

    /// Whether a histogram named `name` is registered.
    pub fn contains(&self, name: &str) -> (r: bool)
        ensures
            r == self.names().contains(name@),
    {
        match self.position(name) {
            Some(_) => true,
            None => false,
        }
    }

    /// Registers a histogram family under `name`.
    ///
    /// A name that is already registered is refused with `DuplicateName`,
    /// and the registry is left as it was; a new name is appended, so that
    /// the registration order is kept.
    pub fn histogram_add(&mut self, name: &str, help: &str, family: F) -> (r: Result<(), MetricsError>)
        requires
            old(self).wf(),
        ensures
            final(self).wf(),
            final(self).names() == add_name(old(self).names(), name@),
            r is Ok <==> !old(self).names().contains(name@),
            r is Ok ==> final(self).helps() == old(self).helps().push(help@),
            r is Ok ==> final(self).families() == old(self).families().push(family),
            !(r is Ok) ==> *final(self) == *old(self),
            !(r is Ok) ==> (r matches Err(MetricsError::DuplicateName(n)) && n@ == name@),
    {
        if self.contains(name) {
            return Err(MetricsError::DuplicateName(name.to_owned()));
        }
        let entry = Entry { name: name.to_owned(), help: help.to_owned(), family };
        self.entries.push(entry);
        proof {
            assert(self.names() =~= old(self).names().push(name@));
            assert(self.helps() =~= old(self).helps().push(help@));
            assert(self.families() =~= old(self).families().push(family));
        }
        Ok(())
    }

    /// The family registered under `name`, or `UnknownMetric` when no
    /// histogram of that name is registered.
    pub fn histogram_family(&self, name: &str) -> (r: Result<&F, MetricsError>)
        ensures
            r is Ok <==> self.names().contains(name@),
            match r {
                Ok(f) => exists|i: int|
                    0 <= i < self.names().len() && self.names()[i] == name@ && *f
                        == self.families()[i],
                Err(e) => e matches MetricsError::UnknownMetric(n) && n@ == name@,
            },
    {
        match self.position(name) {
            Some(i) => {
                proof {
                    assert(self.names()[i as int] == self.entries@[i as int].name@);
                }
                Ok(&self.entries[i].family)
            },
            None => Err(MetricsError::UnknownMetric(name.to_owned())),
        }
    }

    /// The registered names, in registration order.
    pub fn histogram_list(&self) -> (r: Vec<String>)
        ensures
            r@.map_values(|s: String| s@) == self.names(),
    {
        let mut out: Vec<String> = Vec::new();
        let mut i: usize = 0;
        while i < self.entries.len()
            invariant
                i <= self.entries@.len(),
                out@.map_values(|s: String| s@) == self.names().take(i as int),
            decreases self.entries@.len() - i,
        {
            let name = self.entries[i].name.clone();
            proof {
                assert(self.names().take(i + 1) =~= self.names().take(i as int).push(name@));
            }
            out.push(name);
            proof {
                assert(out@.map_values(|s: String| s@) =~= self.names().take(i + 1));
            }
            i = i + 1;
        }
        proof {
            assert(self.names().take(self.entries@.len() as int) =~= self.names());
        }
        out
    }
}

} // verus!
