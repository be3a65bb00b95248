use vstd::prelude::*;

verus! {

/// For each listening socket, the stream sockets accepted on it and not yet
/// closed.
pub uninterp spec fn listener_streams(m: papaya::HashMap<usize, papaya::HashSet<usize>>) -> Map<usize, Set<usize>>;

/// The table with no listener.
pub open spec fn no_listeners() -> Map<usize, Set<usize>> {
    Map::empty()
}

/// The empty set of streams.
pub open spec fn no_streams() -> Set<usize> {
    Set::empty()
}

/// Creates an empty table, as `papaya::HashMap::with_capacity` does.
#[verifier::external_body]
fn lstreams_new() -> (r: papaya::HashMap<usize, papaya::HashSet<usize>>)
    ensures
        listener_streams(r) == no_listeners(),
{
    papaya::HashMap::with_capacity(32)
}

/// Gives a listener an empty set of streams with `papaya::HashMapRef::insert`
/// of a new `papaya::HashSet`.
#[verifier::external_body]
fn lstreams_insert_empty(m: &mut papaya::HashMap<usize, papaya::HashSet<usize>>, lfd: usize)
    ensures
        listener_streams(*final(m)) == listener_streams(*old(m)).insert(lfd, no_streams()),
{
    m.pin().insert(lfd, papaya::HashSet::new());
}

/// Forgets a listener with `papaya::HashMapRef::remove`.
#[verifier::external_body]
fn lstreams_remove(m: &mut papaya::HashMap<usize, papaya::HashSet<usize>>, lfd: usize)
    ensures
        listener_streams(*final(m)) == listener_streams(*old(m)).remove(lfd),
{
    m.pin().remove(&lfd);
}

/// Whether a listener is known, with `papaya::HashMapRef::contains_key`.
#[verifier::external_body]
fn lstreams_contains(m: &papaya::HashMap<usize, papaya::HashSet<usize>>, lfd: usize) -> (r: bool)
    ensures
        r == listener_streams(*m).dom().contains(lfd),
{
    m.pin().contains_key(&lfd)
}

/// Adds a stream to a known listener's set with `papaya::HashSetRef::insert`.
#[verifier::external_body]
fn lstreams_insert_stream(m: &mut papaya::HashMap<usize, papaya::HashSet<usize>>, lfd: usize, fd: usize)
    requires
        listener_streams(*old(m)).dom().contains(lfd),
    ensures
        listener_streams(*final(m)) == listener_streams(*old(m)).insert(
            lfd,
            listener_streams(*old(m))[lfd].insert(fd),
        ),
{
    m.pin().get(&lfd).unwrap().pin().insert(fd);
}

/// Removes a stream from a known listener's set with
/// `papaya::HashSetRef::remove`.
#[verifier::external_body]
fn lstreams_remove_stream(m: &mut papaya::HashMap<usize, papaya::HashSet<usize>>, lfd: usize, fd: usize)
    requires
        listener_streams(*old(m)).dom().contains(lfd),
    ensures
        listener_streams(*final(m)) == listener_streams(*old(m)).insert(
            lfd,
            listener_streams(*old(m))[lfd].remove(fd),
        ),
{
    m.pin().get(&lfd).unwrap().pin().remove(&fd);
}

/// The streams of a known listener, in the set's iteration order
/// (`papaya::HashSetRef::iter`), each once.
#[verifier::external_body]
fn lstreams_members(m: &papaya::HashMap<usize, papaya::HashSet<usize>>, lfd: usize) -> (r: Vec<usize>)
    requires
        listener_streams(*m).dom().contains(lfd),
    ensures
        r@.no_duplicates(),
        r@.to_set() == listener_streams(*m)[lfd],
{
    m.pin().get(&lfd).unwrap().pin().iter().copied().collect()
}

/// The listening sockets of the loop's servers and the streams accepted on
/// each.
pub struct ListenerStreams {
    table: papaya::HashMap<usize, papaya::HashSet<usize>>,
}

impl ListenerStreams {
    pub closed spec fn view(&self) -> Map<usize, Set<usize>> {
        listener_streams(self.table)
    }

    pub fn new() -> (r: Self)
        ensures
            r.view() == no_listeners(),
    {
        ListenerStreams { table: lstreams_new() }
    }

    /// A new listener starts with no stream.
    pub fn add_listener(&mut self, lfd: usize)
        ensures
            final(self).view() == old(self).view().insert(lfd, no_streams()),
    {
        lstreams_insert_empty(&mut self.table, lfd);
    }

    pub fn remove_listener(&mut self, lfd: usize)
        ensures
            final(self).view() == old(self).view().remove(lfd),
    {
        lstreams_remove(&mut self.table, lfd);
    }

    pub fn has_listener(&self, lfd: usize) -> (r: bool)
        ensures
            r == self.view().dom().contains(lfd),
    {
        lstreams_contains(&self.table, lfd)
    }

    /// Records a stream accepted on a known listener.
    pub fn stream_accepted(&mut self, lfd: usize, fd: usize)
        requires
            old(self).view().dom().contains(lfd),
        ensures
            final(self).view() == old(self).view().insert(lfd, old(self).view()[lfd].insert(fd)),
    {
        lstreams_insert_stream(&mut self.table, lfd, fd);
    }

    /// Forgets a closed stream; nothing changes for a stream of no listener
    /// or of a listener that is gone.
    pub fn stream_closed(&mut self, lfd: Option<usize>, fd: usize)
        ensures
            match lfd {
                Some(l) => if old(self).view().dom().contains(l) {
                    final(self).view() == old(self).view().insert(l, old(self).view()[l].remove(fd))
                } else {
                    final(self).view() == old(self).view()
                },
                None => final(self).view() == old(self).view(),
            },
    {
        if let Some(l) = lfd {
            if lstreams_contains(&self.table, l) {
                lstreams_remove_stream(&mut self.table, l, fd);
            }
        }
    }

    /// The streams of a listener, each once; none for an unknown listener.
    pub fn streams_of(&self, lfd: usize) -> (r: Vec<usize>)
        ensures
            r@.no_duplicates(),
            self.view().dom().contains(lfd) ==> r@.to_set() == self.view()[lfd],
            !self.view().dom().contains(lfd) ==> r@.len() == 0,
    {
        if lstreams_contains(&self.table, lfd) {
            lstreams_members(&self.table, lfd)
        } else {
            Vec::new()
        }
    }
}

} // verus!
