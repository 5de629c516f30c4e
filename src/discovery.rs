//! Finding the device: the size of the interface list, the paths in it, and
//! the order in which they are tried.
use vstd::prelude::*;

verus! {

/// Why no device handle could be had.
#[derive(Clone, Copy, Debug, PartialEq, Eq, Structural)]
pub enum DeviceError {
    /// Asking for the size of the interface list failed.
    SizeQueryFailed,
    /// Fetching the interface list failed, or it could not be read.
    ListFetchFailed,
    /// No interface of the class is present.
    NoInterfacesPresent,
    /// Interfaces were listed, but none of them could be opened.
    NoValidHandle,
    /// The list held no path once blank entries were left out.
    InterfaceNotFound,
}

/// The next move of the search over the listed paths.
#[derive(Clone, Copy, Debug, PartialEq, Eq)]
pub enum Probe {
    /// Try to open the path at this index.
    Open(usize),
    /// The search is over.
    Finished(Result<isize, DeviceError>),
}

/// What `char::is_whitespace` says of a character.
pub uninterp spec fn white_space(c: char) -> bool;

/// Relies on `char::is_whitespace`: its answer depends on the character alone.
#[verifier::external_body]
fn is_white(c: char) -> (r: bool)
    ensures
        r == white_space(c),
{
    c.is_whitespace()
}

/// Relies on `char::from_u32`: a value is a character unless it is a surrogate,
/// and the character has that value.
#[verifier::external_body]
fn char_of_unit(u: u16) -> (r: Option<char>)
    ensures
        r is None <==> (0xD800 <= u && u <= 0xDFFF),
        r matches Some(c) ==> c as int == u as int,
{
    char::from_u32(u as u32)
}

/// The list length that the operating system reported, read as the search needs it.
pub open spec fn length_outcome(reported: Option<u32>) -> Result<usize, DeviceError> {
    match reported {
        None => Err(DeviceError::SizeQueryFailed),
        Some(n) => if n <= 1 {
            Err(DeviceError::NoInterfacesPresent)
        } else {
            Ok(n as usize)
        },
    }
}

/// Reads the reported length of the interface list (in 16-bit units, the final
/// terminator included); `None` where the size query failed. A length of at
/// most one holds the terminator alone: no interface is present.
pub fn list_length(reported: Option<u32>) -> (r: Result<usize, DeviceError>)
    ensures
        r == length_outcome(reported),
{
    match reported {
        None => Err(DeviceError::SizeQueryFailed),
        Some(n) => if n <= 1 {
            Err(DeviceError::NoInterfacesPresent)
        } else {
            Ok(n as usize)
        },
    }
}

/// The entries of a list whose entries each end at a zero unit; the last
/// entry is what follows the last zero.
pub open spec fn fields(s: Seq<u16>) -> Seq<Seq<u16>>
    decreases s.len(),
{
    if s.len() == 0 {
        seq![Seq::empty()]
    } else {
        let f = fields(s.drop_last());
        if s.last() == 0 {
            f.push(Seq::empty())
        } else {
            f.update(f.len() - 1, f.last().push(s.last()))
        }
    }
}

/// A unit that stands for a white-space character.
pub open spec fn is_blank_unit(u: u16) -> bool {
    &&& !(0xD800 <= u && u <= 0xDFFF)
    &&& exists|c: char| c as int == u as int && #[trigger] white_space(c)
}

/// An entry that is empty or holds white space alone.
pub open spec fn is_blank(f: Seq<u16>) -> bool {
    forall|i: int| 0 <= i < f.len() ==> is_blank_unit(#[trigger] f[i])
}

/// The entries that are not blank, in order.
pub open spec fn kept(fs: Seq<Seq<u16>>) -> Seq<Seq<u16>>
    decreases fs.len(),
{
    if fs.len() == 0 {
        Seq::empty()
    } else if is_blank(fs.last()) {
        kept(fs.drop_last())
    } else {
        kept(fs.drop_last()).push(fs.last())
    }
}

/// The paths that a fetched interface list names, in order.
pub open spec fn candidates(list: Seq<u16>) -> Seq<Seq<u16>> {
    kept(fields(list))
}

/// What each vector of `v` holds.
pub open spec fn views(v: Seq<Vec<u16>>) -> Seq<Seq<u16>> {
    v.map_values(|x: Vec<u16>| x@)
}

fn is_blank_unit_exec(u: u16) -> (r: bool)
    ensures
        r == is_blank_unit(u),
{
    match char_of_unit(u) {
        None => false,
        Some(c) => {
            let w = is_white(c);
            if w {
                assert(c as int == u as int && white_space(c));
            } else {
                assert forall|d: char| d as int == u as int implies !white_space(d) by {
                    assert(d == c);
                }
            }
            w
        },
    }
}

fn is_blank_entry(f: &Vec<u16>) -> (r: bool)
    ensures
        r == is_blank(f@),
{
    let mut i: usize = 0;
    while i < f.len()
        invariant
            0 <= i <= f@.len(),
            forall|j: int| 0 <= j < i ==> is_blank_unit(#[trigger] f@[j]),
        decreases f@.len() - i,
    {
        if !is_blank_unit_exec(f[i]) {
            return false;
        }
        i = i + 1;
    }
    true
}

/// Splits a fetched interface list at its zero units and leaves out the
/// entries that are empty or white space alone.
pub fn interface_paths(list: &Vec<u16>) -> (r: Vec<Vec<u16>>)
    ensures
        views(r@) == candidates(list@),
{
    let mut out: Vec<Vec<u16>> = Vec::new();
    let mut cur: Vec<u16> = Vec::new();
    let ghost done: Seq<Seq<u16>> = Seq::empty();
    let mut i: usize = 0;
    assert(list@.take(0) =~= Seq::<u16>::empty());
    assert(views(out@) =~= Seq::<Seq<u16>>::empty());
    while i < list.len()
        invariant
            0 <= i <= list@.len(),
            fields(list@.take(i as int)) == done.push(cur@),
            views(out@) == kept(done),
        decreases list@.len() - i,
    {
        let u = list[i];
        assert(list@.take(i + 1).drop_last() =~= list@.take(i as int));
        if u == 0 {
            let blank = is_blank_entry(&cur);
            let ghost field = cur@;
            assert(done.push(field).drop_last() =~= done);
            if !blank {
                out.push(cur);
                assert(views(out@) =~= kept(done).push(field));
            }
            proof {
                done = done.push(field);
            }
            cur = Vec::new();
            assert(fields(list@.take(i + 1)) =~= done.push(cur@));
        } else {
            let ghost before = cur@;
            cur.push(u);
            assert(fields(list@.take(i + 1)) =~= done.push(cur@));
        }
        i = i + 1;
    }
    assert(list@.take(list@.len() as int) =~= list@);
    let ghost last = cur@;
    assert(done.push(last).drop_last() =~= done);
    if !is_blank_entry(&cur) {
        out.push(cur);
        assert(views(out@) =~= kept(done).push(last));
    }
    out
}

/// The paths of the list as fetched; `None` where fetching it failed.
pub fn fetched_paths(fetched: Option<Vec<u16>>) -> (r: Result<Vec<Vec<u16>>, DeviceError>)
    ensures
        fetched is None ==> r == Err::<Vec<Vec<u16>>, DeviceError>(DeviceError::ListFetchFailed),
        fetched matches Some(list) ==> (r matches Ok(paths) && views(paths@) == candidates(
            list@,
        )),
{
    match fetched {
        None => Err(DeviceError::ListFetchFailed),
        Some(list) => Ok(interface_paths(&list)),
    }
}

/// The first move of the search over `n` paths.
pub fn first_probe(n: usize) -> (r: Probe)
    ensures
        n == 0 ==> r == Probe::Finished(Err(DeviceError::InterfaceNotFound)),
        n > 0 ==> r == Probe::Open(0),
{
    if n == 0 {
        Probe::Finished(Err(DeviceError::InterfaceNotFound))
    } else {
        Probe::Open(0)
    }
}

/// The move after trying the path at index `tried` of `n`: the first handle
/// that opened ends the search; after the last path fails, none is valid.
pub fn next_probe(n: usize, tried: usize, opened: Option<isize>) -> (r: Probe)
    requires
        tried < n,
    ensures
        opened matches Some(h) ==> r == Probe::Finished(Ok(h)),
        opened is None && tried + 1 < n ==> r == Probe::Open((tried + 1) as usize),
        opened is None && tried + 1 == n ==> r == Probe::Finished(
            Err(DeviceError::NoValidHandle),
        ),
{
    match opened {
        Some(h) => Probe::Finished(Ok(h)),
        None => if tried + 1 < n {
            Probe::Open(tried + 1)
        } else {
            Probe::Finished(Err(DeviceError::NoValidHandle))
        },
    }
}

} // verus!
