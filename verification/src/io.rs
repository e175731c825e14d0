//! Adapters between the engine, which pulls bytes from a reader and hands
//! bytes to a writer, and the caller's network callbacks.
//!
//! A callback makes one attempt at the network each time it is called. It
//! answers with a status, zero for success or else an error number, and with
//! what it moved: the bytes it read, or how many bytes it wrote. Moving fewer
//! bytes than were asked for, or none, is a success like any other.
use vstd::prelude::*;

use crate::error::rustls_io_result;
use crate::os::{io_error_code, io_slice_bytes, io_slice_contents};
use crate::rslice::rustls_slice_bytes;

verus! {

/// What a call of a callback comes to: the number of bytes moved if the
/// status is zero, the status as an error if it is not.
pub open spec fn spec_callback_result(status: rustls_io_result, n: usize) -> Result<usize, rustls_io_result> {
    if status.0 == 0 {
        Ok(n)
    } else {
        Err(status)
    }
}

/// Turns the answer of a callback into a result. A zero status is a success
/// with the number of bytes that the callback reports, whatever that number
/// is: a success with no byte moved is neither an error nor the end of the
/// stream. Any other status is an error that carries the status.
pub fn callback_result(status: rustls_io_result, n: usize) -> (r: Result<usize, rustls_io_result>)
    ensures
        r == spec_callback_result(status, n),
{
    if status.0 == 0 {
        Ok(n)
    } else {
        Err(status)
    }
}

/// What a read callback owes: it can be called with any context and any
/// capacity, and on success it reads no more bytes than the capacity.
pub open spec fn is_read_callback<F: Fn(usize, usize) -> (rustls_io_result, Vec<u8>)>(callback: F) -> bool {
    &&& forall|userdata: usize, n: usize| call_requires(callback, (userdata, n))
    &&& forall|userdata: usize, n: usize, status: rustls_io_result, data: Vec<u8>|
        #[trigger] call_ensures(callback, (userdata, n), (status, data)) && status.0 == 0
            ==> data@.len() <= n
}

/// What a write callback owes: it can be called with any context and any
/// bytes, and on success it writes no more bytes than it was given.
pub open spec fn is_write_callback<F: Fn(usize, &[u8]) -> (rustls_io_result, usize)>(callback: F) -> bool {
    &&& forall|userdata: usize, buf: &[u8]| call_requires(callback, (userdata, buf))
    &&& forall|userdata: usize, buf: &[u8], status: rustls_io_result, n: usize|
        #[trigger] call_ensures(callback, (userdata, buf), (status, n)) && status.0 == 0 ==> n
            <= buf@.len()
}

/// What a vectored write callback owes: it can be called with any context
/// and any list of ranges.
pub open spec fn is_vectored_write_callback<F: Fn(usize, &[rustls_slice_bytes]) -> (rustls_io_result, usize)>(
    callback: F,
) -> bool {
    forall|userdata: usize, slices: &[rustls_slice_bytes]| call_requires(callback, (userdata, slices))
}

/// A reader that gets its bytes from a read callback.
pub struct CallbackReader<F: Fn(usize, usize) -> (rustls_io_result, Vec<u8>)> {
    callback: F,
    userdata: usize,
}

impl<F: Fn(usize, usize) -> (rustls_io_result, Vec<u8>)> CallbackReader<F> {
    #[verifier::type_invariant]
    spec fn callback_is_fit(self) -> bool {
        is_read_callback(self.callback)
    }

    /// The callback that the reader calls.
    pub closed spec fn callback(self) -> F {
        self.callback
    }

    /// The context that the reader passes to its callback.
    pub closed spec fn userdata(self) -> usize {
        self.userdata
    }

    /// A reader that calls `callback` with the context `userdata`.
    pub fn new(callback: F, userdata: usize) -> (r: Self)
        requires
            is_read_callback(callback),
        ensures
            r.callback() == callback,
            r.userdata() == userdata,
    {
        CallbackReader { callback, userdata }
    }

    /// Calls the callback once, with the length of `buf` as the capacity, and
    /// on success stores the bytes that it read at the start of `buf`.
    ///
    /// The result is that of the one call: the number of bytes read, which
    /// may be any number up to the length of `buf`, or the status of the
    /// callback as an error, with `buf` untouched.
    pub fn read_once(&self, buf: &mut [u8]) -> (r: Result<usize, rustls_io_result>)
        ensures
            final(buf)@.len() == old(buf)@.len(),
            exists|status: rustls_io_result, data: Vec<u8>|
                {
                    &&& #[trigger] call_ensures(
                        self.callback(),
                        (self.userdata(), old(buf)@.len() as usize),
                        (status, data),
                    )
                    &&& r == spec_callback_result(status, data@.len() as usize)
                    &&& final(buf)@ == if status.0 == 0 {
                        data@ + old(buf)@.skip(data@.len() as int)
                    } else {
                        old(buf)@
                    }
                },
    {
        proof {
            use_type_invariant(self);
        }
        let capacity: usize = buf.len();
        let (status, data) = (self.callback)(self.userdata, capacity);
        assert(call_ensures(self.callback(), (self.userdata(), capacity), (status, data)));
        if status.0 == 0 {
            let mut i: usize = 0;
            while i < data.len()
                invariant
                    i <= data.len(),
                    data.len() <= buf@.len(),
                    buf@.len() == old(buf)@.len(),
                    buf@ == data@.subrange(0, i as int) + old(buf)@.skip(i as int),
                decreases data.len() - i,
            {
                buf[i] = data[i];
                i += 1;
            }
            assert(data@.subrange(0, i as int) =~= data@);
        }
        assert(buf@ == if status.0 == 0 {
            data@ + old(buf)@.skip(data@.len() as int)
        } else {
            old(buf)@
        });
        callback_result(status, data.len())
    }
}

impl<F: Fn(usize, usize) -> (rustls_io_result, Vec<u8>)> std::io::Read for CallbackReader<F> {
    /// Reads by one call of the callback, with the length of `buf` as the
    /// capacity. On success the bytes that the callback read stand at the
    /// start of `buf` and their number is returned; a failure of the callback
    /// is an error, made from its status as the error number, and leaves `buf`
    /// untouched. The reader itself is not changed.
    fn read(&mut self, buf: &mut [u8]) -> (r: std::io::Result<usize>)
        ensures
            final(self).callback() == old(self).callback(),
            final(self).userdata() == old(self).userdata(),
            final(buf)@.len() == old(buf)@.len(),
            exists|status: rustls_io_result, data: Vec<u8>|
                {
                    &&& #[trigger] call_ensures(
                        old(self).callback(),
                        (old(self).userdata(), old(buf)@.len() as usize),
                        (status, data),
                    )
                    &&& spec_is_io_outcome(r, spec_callback_result(status, data@.len() as usize))
                    &&& final(buf)@ == if status.0 == 0 {
                        data@ + old(buf)@.skip(data@.len() as int)
                    } else {
                        old(buf)@
                    }
                },
    {
        match self.read_once(buf) {
            Ok(n) => Ok(n),
            Err(status) => Err(std::io::Error::from_raw_os_error(status.0)),
        }
    }
}

/// Whether the result `r`, in the terms of the standard I/O traits, tells
/// the outcome `plain`: the same count where `plain` is a success, and where
/// it is a failure an error that carries the status as its error number.
pub open spec fn spec_is_io_outcome(r: std::io::Result<usize>, plain: Result<usize, rustls_io_result>) -> bool {
    match plain {
        Ok(n) => r matches Ok(m) && m == n,
        Err(status) => r matches Err(e) && io_error_code(e) == Some(status.0),
    }
}

/// Whether `fragments` are the bytes of the buffers `bufs`, one fragment for
/// each buffer, in order.
pub open spec fn spec_are_fragments_of(fragments: Seq<&[u8]>, bufs: Seq<std::io::IoSlice>) -> bool {
    &&& fragments.len() == bufs.len()
    &&& forall|i: int| 0 <= i < fragments.len() ==> (#[trigger] fragments[i])@ == io_slice_contents(bufs[i])
}

/// Lends the bytes of each buffer of `bufs`, in order.
fn fragments_of<'a>(bufs: &'a [std::io::IoSlice<'_>]) -> (r: Vec<&'a [u8]>)
    ensures
        spec_are_fragments_of(r@, bufs@),
{
    let mut fragments: Vec<&'a [u8]> = Vec::new();
    let mut i: usize = 0;
    while i < bufs.len()
        invariant
            i <= bufs.len(),
            fragments@.len() == i,
            forall|j: int| 0 <= j < i ==> (#[trigger] fragments@[j])@ == io_slice_contents(bufs@[j]),
        decreases bufs.len() - i,
    {
        fragments.push(io_slice_bytes(&bufs[i]));
        i += 1;
    }
    fragments
}

/// The number of bytes in the first `k` fragments of `bufs`.
pub open spec fn spec_prefix_len(bufs: Seq<&[u8]>, k: int) -> int
    decreases k,
{
    if k <= 0 {
        0
    } else {
        spec_prefix_len(bufs, k - 1) + bufs[k - 1]@.len()
    }
}

/// How writing a list of fragments through a single-buffer callback goes on
/// after one fragment was handed to the callback.
#[derive(Clone, Copy, Debug, PartialEq, Eq, Structural)]
pub enum VectoredStep {
    /// The fragment was written whole: the next fragment is due, with this
    /// many bytes written so far.
    Continue(usize),
    /// The write ends here with this many bytes written: the callback took
    /// only a part of the fragment.
    Short(usize),
    /// The write ends here with this error: the callback failed.
    Failed(rustls_io_result),
}

/// The step that follows when `total` bytes were written before, a fragment
/// of `len` bytes was handed to the callback, and the callback answered with
/// `status` and `n` bytes written.
pub open spec fn spec_vectored_step(total: usize, len: usize, status: rustls_io_result, n: usize) -> VectoredStep {
    if status.0 != 0 {
        VectoredStep::Failed(status)
    } else if n != len {
        VectoredStep::Short((total + n) as usize)
    } else {
        VectoredStep::Continue((total + n) as usize)
    }
}

/// Decides how a vectored write goes on after one fragment. A failure of the
/// callback ends the write with its status, whatever was written before. A
/// fragment that was taken in part ends the write with the bytes written so
/// far and the part that was taken, so that the caller resumes at the right
/// byte. A fragment that was taken whole leads on to the next one.
pub fn vectored_step(
    total: usize,
    len: usize,
    status: rustls_io_result,
    n: usize,
) -> (step: VectoredStep)
    requires
        total + len <= usize::MAX,
        status.0 == 0 ==> n <= len,
    ensures
        step == spec_vectored_step(total, len, status, n),
{
    match callback_result(status, n) {
        Ok(n) => {
            if n != len {
                VectoredStep::Short(total + n)
            } else {
                VectoredStep::Continue(total + n)
            }
        },
        Err(e) => VectoredStep::Failed(e),
    }
}

/// Whether the callback took each non-empty fragment among the first `k` of
/// `bufs` whole.
pub open spec fn spec_took_whole<F: Fn(usize, &[u8]) -> (rustls_io_result, usize)>(
    callback: F,
    userdata: usize,
    bufs: Seq<&[u8]>,
    k: int,
) -> bool {
    forall|j: int|
        0 <= j < k && bufs[j]@.len() > 0 ==> #[trigger] call_ensures(
            callback,
            (userdata, bufs[j]),
            (rustls_io_result(0), bufs[j]@.len() as usize),
        )
}

/// Whether `r` is a result of writing the fragments `bufs` in order through
/// a single-buffer callback, with the write ending at the fragment `k`.
///
/// Empty fragments are passed over. Every fragment before `k` was taken
/// whole. Either `k` is the end of the list and all bytes were written; or
/// the callback took a part of fragment `k`, and the result counts the
/// fragments before it and that part; or the callback failed on fragment
/// `k`, and the result is its status; or the count of bytes would no longer
/// fit a `usize` with fragment `k`, which is then not handed to the callback.
pub open spec fn spec_vectored_ends_at<F: Fn(usize, &[u8]) -> (rustls_io_result, usize)>(
    callback: F,
    userdata: usize,
    bufs: Seq<&[u8]>,
    k: int,
    r: Result<usize, rustls_io_result>,
) -> bool {
    &&& 0 <= k <= bufs.len()
    &&& spec_took_whole(callback, userdata, bufs, k)
    &&& spec_prefix_len(bufs, k) <= usize::MAX
    &&& if k == bufs.len() {
        r == Ok::<usize, rustls_io_result>(spec_prefix_len(bufs, k) as usize)
    } else if spec_prefix_len(bufs, k + 1) > usize::MAX {
        r == Ok::<usize, rustls_io_result>(spec_prefix_len(bufs, k) as usize)
    } else {
        bufs[k]@.len() > 0 && exists|status: rustls_io_result, n: usize|
            {
                &&& #[trigger] call_ensures(callback, (userdata, bufs[k]), (status, n))
                &&& status.0 == 0 ==> n != bufs[k]@.len()
                &&& match spec_vectored_step(
                    spec_prefix_len(bufs, k) as usize,
                    bufs[k]@.len() as usize,
                    status,
                    n,
                ) {
                    VectoredStep::Continue(_) => false,
                    VectoredStep::Short(total) => r == Ok::<usize, rustls_io_result>(total),
                    VectoredStep::Failed(e) => r == Err::<usize, rustls_io_result>(e),
                }
            }
    }
}

/// A writer that hands its bytes to a write callback, one buffer at a time.
pub struct CallbackWriter<F: Fn(usize, &[u8]) -> (rustls_io_result, usize)> {
    callback: F,
    userdata: usize,
}

impl<F: Fn(usize, &[u8]) -> (rustls_io_result, usize)> CallbackWriter<F> {
    #[verifier::type_invariant]
    spec fn callback_is_fit(self) -> bool {
        is_write_callback(self.callback)
    }

    /// The callback that the writer calls.
    pub closed spec fn callback(self) -> F {
        self.callback
    }

    /// The context that the writer passes to its callback.
    pub closed spec fn userdata(self) -> usize {
        self.userdata
    }

    /// A writer that calls `callback` with the context `userdata`.
    pub fn new(callback: F, userdata: usize) -> (r: Self)
        requires
            is_write_callback(callback),
        ensures
            r.callback() == callback,
            r.userdata() == userdata,
    {
        CallbackWriter { callback, userdata }
    }

    /// Calls the callback once with `buf`. The result is that of the one
    /// call: the number of bytes written, which is at most the length of
    /// `buf`, or the status of the callback as an error.
    pub fn write_once(&self, buf: &[u8]) -> (r: Result<usize, rustls_io_result>)
        ensures
            exists|status: rustls_io_result, n: usize|
                {
                    &&& #[trigger] call_ensures(self.callback(), (self.userdata(), buf), (status, n))
                    &&& r == spec_callback_result(status, n)
                },
            r matches Ok(n) ==> n <= buf@.len(),
    {
        proof {
            use_type_invariant(self);
        }
        let (status, n) = (self.callback)(self.userdata, buf);
        assert(call_ensures(self.callback(), (self.userdata(), buf), (status, n)));
        callback_result(status, n)
    }

    /// Writes the fragments of `bufs` in order, one call of the callback for
    /// each fragment that is not empty, and stops at the first fragment that
    /// the callback does not take whole.
    ///
    /// The result counts the bytes that the callback took, up to and with the
    /// part of the fragment at which the write stopped, so that the next
    /// write resumes at the right byte. If the callback fails, the result is
    /// its status.
    pub fn write_fragments(&self, bufs: &[&[u8]]) -> (r: Result<usize, rustls_io_result>)
        ensures
            exists|k: int| spec_vectored_ends_at(self.callback(), self.userdata(), bufs@, k, r),
    {
        proof {
            use_type_invariant(self);
        }
        let mut out_n: usize = 0;
        let mut i: usize = 0;
        while i < bufs.len()
            invariant
                i <= bufs.len(),
                is_write_callback(self.callback()),
                out_n == spec_prefix_len(bufs@, i as int),
                spec_took_whole(self.callback(), self.userdata(), bufs@, i as int),
            decreases bufs.len() - i,
        {
            let buf: &[u8] = bufs[i];
            if buf.len() > 0 {
                if buf.len() > usize::MAX - out_n {
                    proof {
                        assert(spec_vectored_ends_at(
                            self.callback(),
                            self.userdata(),
                            bufs@,
                            i as int,
                            Ok::<usize, rustls_io_result>(out_n),
                        ));
                    }
                    return Ok(out_n);
                }
                let (status, n) = (self.callback)(self.userdata, buf);
                assert(call_ensures(self.callback(), (self.userdata(), bufs@[i as int]), (status, n)));
                match vectored_step(out_n, buf.len(), status, n) {
                    VectoredStep::Continue(total) => {
                        out_n = total;
                    },
                    VectoredStep::Short(total) => {
                        proof {
                            assert(spec_vectored_ends_at(
                                self.callback(),
                                self.userdata(),
                                bufs@,
                                i as int,
                                Ok::<usize, rustls_io_result>(total),
                            ));
                        }
                        return Ok(total);
                    },
                    VectoredStep::Failed(e) => {
                        proof {
                            assert(spec_vectored_ends_at(
                                self.callback(),
                                self.userdata(),
                                bufs@,
                                i as int,
                                Err::<usize, rustls_io_result>(e),
                            ));
                        }
                        return Err(e);
                    },
                }
            }
            i += 1;
        }
        proof {
            assert(spec_vectored_ends_at(
                self.callback(),
                self.userdata(),
                bufs@,
                bufs@.len() as int,
                Ok::<usize, rustls_io_result>(out_n),
            ));
        }
        Ok(out_n)
    }
}

impl<F: Fn(usize, &[u8]) -> (rustls_io_result, usize)> std::io::Write for CallbackWriter<F> {
    /// Writes by one call of the callback with `buf`. On success the number
    /// of bytes that the callback took is returned, which is at most the
    /// length of `buf`; a failure of the callback is an error, made from its
    /// status as the error number. The writer itself is not changed.
    fn write(&mut self, buf: &[u8]) -> (r: std::io::Result<usize>)
        ensures
            final(self).callback() == old(self).callback(),
            final(self).userdata() == old(self).userdata(),
            exists|status: rustls_io_result, n: usize|
                {
                    &&& #[trigger] call_ensures(old(self).callback(), (old(self).userdata(), buf), (status, n))
                    &&& spec_is_io_outcome(r, spec_callback_result(status, n))
                },
            r matches Ok(n) ==> n <= buf@.len(),
    {
        match self.write_once(buf) {
            Ok(n) => Ok(n),
            Err(status) => Err(std::io::Error::from_raw_os_error(status.0)),
        }
    }

    /// There is nothing to flush: the writer holds no bytes back. Flushing
    /// always succeeds, calls nothing and changes nothing.
    fn flush(&mut self) -> (r: std::io::Result<()>)
        ensures
            r is Ok,
            final(self).callback() == old(self).callback(),
            final(self).userdata() == old(self).userdata(),
    {
        Ok(())
    }

    /// Writes the bytes of the buffers in order, one call of the callback for
    /// each buffer that is not empty, up to the first that the callback does
    /// not take whole. The result counts the bytes that the callback took, up
    /// to and with the part of the buffer at which the write ended; a failure
    /// of the callback is an error, made from its status as the error number.
    /// The writer itself is not changed.
    fn write_vectored(&mut self, bufs: &[std::io::IoSlice<'_>]) -> (r: std::io::Result<usize>)
        ensures
            final(self).callback() == old(self).callback(),
            final(self).userdata() == old(self).userdata(),
            exists|fragments: Seq<&[u8]>, k: int, plain: Result<usize, rustls_io_result>|
                {
                    &&& spec_are_fragments_of(fragments, bufs@)
                    &&& #[trigger] spec_vectored_ends_at(
                        old(self).callback(),
                        old(self).userdata(),
                        fragments,
                        k,
                        plain,
                    )
                    &&& spec_is_io_outcome(r, plain)
                },
    {
        let fragments: Vec<&[u8]> = fragments_of(bufs);
        let list: &[&[u8]] = fragments.as_slice();
        let written = self.write_fragments(list);
        proof {
            let k = choose|k: int| spec_vectored_ends_at(self.callback(), self.userdata(), list@, k, written);
            assert(spec_vectored_ends_at(old(self).callback(), old(self).userdata(), list@, k, written));
        }
        match written {
            Ok(n) => Ok(n),
            Err(status) => Err(std::io::Error::from_raw_os_error(status.0)),
        }
    }
}

/// The fragments among the first `k` of `bufs` that are not empty, in
/// order.
pub open spec fn spec_nonempty_fragments(bufs: Seq<&[u8]>, k: int) -> Seq<Seq<u8>>
    decreases k,
{
    if k <= 0 {
        Seq::<Seq<u8>>::empty()
    } else if bufs[k - 1]@.len() > 0 {
        spec_nonempty_fragments(bufs, k - 1).push(bufs[k - 1]@)
    } else {
        spec_nonempty_fragments(bufs, k - 1)
    }
}

/// Whether the ranges `slices` cover the byte strings `fragments`, one range
/// for each string, in order.
pub open spec fn spec_ranges_cover(slices: Seq<rustls_slice_bytes>, fragments: Seq<Seq<u8>>) -> bool {
    &&& slices.len() == fragments.len()
    &&& forall|i: int| 0 <= i < slices.len() ==> (#[trigger] slices[i]).bytes() == Some(fragments[i])
}

/// A writer that hands its bytes to a vectored write callback: all pending
/// fragments in one call, so that the caller can write them to the network
/// at once.
pub struct VectoredCallbackWriter<F: Fn(usize, &[rustls_slice_bytes]) -> (rustls_io_result, usize)> {
    callback: F,
    userdata: usize,
}

impl<F: Fn(usize, &[rustls_slice_bytes]) -> (rustls_io_result, usize)> VectoredCallbackWriter<F> {
    #[verifier::type_invariant]
    spec fn callback_is_fit(self) -> bool {
        is_vectored_write_callback(self.callback)
    }

    /// The callback that the writer calls.
    pub closed spec fn callback(self) -> F {
        self.callback
    }

    /// The context that the writer passes to its callback.
    pub closed spec fn userdata(self) -> usize {
        self.userdata
    }

    /// A writer that calls `callback` with the context `userdata`.
    pub fn new(callback: F, userdata: usize) -> (r: Self)
        requires
            is_vectored_write_callback(callback),
        ensures
            r.callback() == callback,
            r.userdata() == userdata,
    {
        VectoredCallbackWriter { callback, userdata }
    }

    /// Calls the callback once with the single range `buf`. The result is
    /// that of the call: the number of bytes that the callback reports, or
    /// its status as an error.
    pub fn write_once(&self, buf: &[u8]) -> (r: Result<usize, rustls_io_result>)
        ensures
            exists|slices: &[rustls_slice_bytes], status: rustls_io_result, n: usize|
                {
                    &&& #[trigger] call_ensures(self.callback(), (self.userdata(), slices), (status, n))
                    &&& spec_ranges_cover(slices@, seq![buf@])
                    &&& r == spec_callback_result(status, n)
                },
    {
        proof {
            use_type_invariant(self);
        }
        let mut slices: Vec<rustls_slice_bytes> = Vec::new();
        slices.push(rustls_slice_bytes::from(buf));
        let ranges: &[rustls_slice_bytes] = slices.as_slice();
        let (status, n) = (self.callback)(self.userdata, ranges);
        assert(call_ensures(self.callback(), (self.userdata(), ranges), (status, n)));
        assert(spec_ranges_cover(ranges@, seq![buf@]));
        callback_result(status, n)
    }

    /// Calls the callback once with the fragments of `bufs` that are not
    /// empty, in order. The result is that of the call: the number of bytes
    /// that the callback reports to have written of all the fragments
    /// together, or its status as an error.
    pub fn write_fragments(&self, bufs: &[&[u8]]) -> (r: Result<usize, rustls_io_result>)
        ensures
            exists|slices: &[rustls_slice_bytes], status: rustls_io_result, n: usize|
                {
                    &&& #[trigger] call_ensures(self.callback(), (self.userdata(), slices), (status, n))
                    &&& spec_ranges_cover(slices@, spec_nonempty_fragments(bufs@, bufs@.len() as int))
                    &&& r == spec_callback_result(status, n)
                },
    {
        proof {
            use_type_invariant(self);
        }
        let mut slices: Vec<rustls_slice_bytes> = Vec::new();
        let mut i: usize = 0;
        while i < bufs.len()
            invariant
                i <= bufs.len(),
                spec_ranges_cover(slices@, spec_nonempty_fragments(bufs@, i as int)),
            decreases bufs.len() - i,
        {
            let buf: &[u8] = bufs[i];
            if buf.len() > 0 {
                slices.push(rustls_slice_bytes::from(buf));
            }
            i += 1;
        }
        let ranges: &[rustls_slice_bytes] = slices.as_slice();
        let (status, n) = (self.callback)(self.userdata, ranges);
        assert(call_ensures(self.callback(), (self.userdata(), ranges), (status, n)));
        callback_result(status, n)
    }
}

impl<F: Fn(usize, &[rustls_slice_bytes]) -> (rustls_io_result, usize)> std::io::Write for VectoredCallbackWriter<
    F,
> {
    /// Writes by one call of the callback with the single range `buf`. On
    /// success the number of bytes that the callback reports is returned; a
    /// failure of the callback is an error, made from its status as the error
    /// number. The writer itself is not changed.
    fn write(&mut self, buf: &[u8]) -> (r: std::io::Result<usize>)
        ensures
            final(self).callback() == old(self).callback(),
            final(self).userdata() == old(self).userdata(),
            exists|slices: &[rustls_slice_bytes], status: rustls_io_result, n: usize|
                {
                    &&& #[trigger] call_ensures(
                        old(self).callback(),
                        (old(self).userdata(), slices),
                        (status, n),
                    )
                    &&& spec_ranges_cover(slices@, seq![buf@])
                    &&& spec_is_io_outcome(r, spec_callback_result(status, n))
                },
    {
        match self.write_once(buf) {
            Ok(n) => Ok(n),
            Err(status) => Err(std::io::Error::from_raw_os_error(status.0)),
        }
    }

    /// There is nothing to flush: the writer holds no bytes back. Flushing
    /// always succeeds, calls nothing and changes nothing.
    fn flush(&mut self) -> (r: std::io::Result<()>)
        ensures
            r is Ok,
            final(self).callback() == old(self).callback(),
            final(self).userdata() == old(self).userdata(),
    {
        Ok(())
    }

    /// Writes by one call of the callback with the bytes of all the buffers
    /// that are not empty, in order. On success the number of bytes that the
    /// callback reports to have written of all of them together is returned;
    /// a failure of the callback is an error, made from its status as the
    /// error number. The writer itself is not changed.
    fn write_vectored(&mut self, bufs: &[std::io::IoSlice<'_>]) -> (r: std::io::Result<usize>)
        ensures
            final(self).callback() == old(self).callback(),
            final(self).userdata() == old(self).userdata(),
            exists|fragments: Seq<&[u8]>, slices: &[rustls_slice_bytes], status: rustls_io_result, n: usize|
                {
                    &&& spec_are_fragments_of(fragments, bufs@)
                    &&& #[trigger] spec_ranges_cover(
                        slices@,
                        spec_nonempty_fragments(fragments, fragments.len() as int),
                    )
                    &&& #[trigger] call_ensures(
                        old(self).callback(),
                        (old(self).userdata(), slices),
                        (status, n),
                    )
                    &&& spec_is_io_outcome(r, spec_callback_result(status, n))
                },
    {
        let fragments: Vec<&[u8]> = fragments_of(bufs);
        let list: &[&[u8]] = fragments.as_slice();
        match self.write_fragments(list) {
            Ok(n) => Ok(n),
            Err(status) => Err(std::io::Error::from_raw_os_error(status.0)),
        }
    }
}

/// The number of bytes in a prefix of the fragments grows with the prefix.
pub proof fn lemma_prefix_len_grows(bufs: Seq<&[u8]>, i: int, j: int)
    requires
        0 <= i <= j,
    ensures
        0 <= spec_prefix_len(bufs, i) <= spec_prefix_len(bufs, j),
    decreases j,
{
    if i < j {
        lemma_prefix_len_grows(bufs, i, j - 1);
    } else if i > 0 {
        lemma_prefix_len_grows(bufs, i - 1, i - 1);
    }
}

/// A vectored write through a single-buffer callback ends at the first
/// fragment that the callback takes in part, and reports the bytes of the
/// fragments before it and the part that was taken; the fragments after it
/// are not handed to the callback.
///
/// This holds of every list of fragments and every callback whose answers
/// are settled: one that takes each fragment before fragment `j` that is not
/// empty whole, and takes `n` bytes of fragment `j`, fewer than it holds. The
/// bytes up to and with fragment `j` are to be no more than a `usize` counts;
/// `lemma_write_ends_before_the_count_overflows` says what holds where they
/// are more.
pub proof fn lemma_write_ends_at_first_short_fragment<F: Fn(usize, &[u8]) -> (rustls_io_result, usize)>(
    callback: F,
    userdata: usize,
    bufs: Seq<&[u8]>,
    j: int,
    n: usize,
    k: int,
    r: Result<usize, rustls_io_result>,
)
    requires
        0 <= j < bufs.len(),
        spec_prefix_len(bufs, j + 1) <= usize::MAX,
        forall|i: int, status: rustls_io_result, m: usize|
            0 <= i < j && bufs[i]@.len() > 0 && #[trigger] call_ensures(
                callback,
                (userdata, bufs[i]),
                (status, m),
            ) ==> status.0 == 0 && m == bufs[i]@.len(),
        forall|status: rustls_io_result, m: usize| #[trigger]
            call_ensures(callback, (userdata, bufs[j]), (status, m)) ==> status.0 == 0 && m == n,
        n < bufs[j]@.len(),
        spec_vectored_ends_at(callback, userdata, bufs, k, r),
    ensures
        k == j,
        r == Ok::<usize, rustls_io_result>((spec_prefix_len(bufs, j) + n) as usize),
{
    lemma_prefix_len_grows(bufs, 0, j);
    lemma_prefix_len_grows(bufs, j, j + 1);
    assert(spec_prefix_len(bufs, j + 1) == spec_prefix_len(bufs, j) + bufs[j]@.len());
    if k < j {
        lemma_prefix_len_grows(bufs, k + 1, j + 1);
        let (status, m) = choose|status: rustls_io_result, m: usize|
            {
                &&& #[trigger] call_ensures(callback, (userdata, bufs[k]), (status, m))
                &&& status.0 == 0 ==> m != bufs[k]@.len()
            };
        assert(call_ensures(callback, (userdata, bufs[k]), (status, m)));
        assert(false);
    } else if k > j {
        assert(call_ensures(
            callback,
            (userdata, bufs[j]),
            (rustls_io_result(0), bufs[j]@.len() as usize),
        ));
        assert(false);
    }
}

/// A vectored write through a single-buffer callback ends before the first
/// fragment with which the bytes written would be more than a `usize`
/// counts: that fragment is not handed to the callback, and the result is
/// the bytes of the fragments before it.
///
/// This holds of every list of fragments and every callback that takes each
/// fragment before fragment `j` that is not empty whole.
pub proof fn lemma_write_ends_before_the_count_overflows<F: Fn(usize, &[u8]) -> (rustls_io_result, usize)>(
    callback: F,
    userdata: usize,
    bufs: Seq<&[u8]>,
    j: int,
    k: int,
    r: Result<usize, rustls_io_result>,
)
    requires
        0 <= j < bufs.len(),
        spec_prefix_len(bufs, j) <= usize::MAX < spec_prefix_len(bufs, j + 1),
        forall|i: int, status: rustls_io_result, m: usize|
            0 <= i < j && bufs[i]@.len() > 0 && #[trigger] call_ensures(
                callback,
                (userdata, bufs[i]),
                (status, m),
            ) ==> status.0 == 0 && m == bufs[i]@.len(),
        spec_vectored_ends_at(callback, userdata, bufs, k, r),
    ensures
        k == j,
        r == Ok::<usize, rustls_io_result>(spec_prefix_len(bufs, j) as usize),
{
    if k < j {
        lemma_prefix_len_grows(bufs, k + 1, j);
        let (status, m) = choose|status: rustls_io_result, m: usize|
            {
                &&& #[trigger] call_ensures(callback, (userdata, bufs[k]), (status, m))
                &&& status.0 == 0 ==> m != bufs[k]@.len()
            };
        assert(call_ensures(callback, (userdata, bufs[k]), (status, m)));
        assert(false);
    } else if k > j {
        lemma_prefix_len_grows(bufs, j + 1, k);
        assert(false);
    }
}

/// A vectored write through a single-buffer callback that takes every
/// fragment whole reports all the bytes of the list.
pub proof fn lemma_write_of_all_fragments<F: Fn(usize, &[u8]) -> (rustls_io_result, usize)>(
    callback: F,
    userdata: usize,
    bufs: Seq<&[u8]>,
    k: int,
    r: Result<usize, rustls_io_result>,
)
    requires
        spec_prefix_len(bufs, bufs.len() as int) <= usize::MAX,
        forall|i: int, status: rustls_io_result, m: usize|
            0 <= i < bufs.len() && bufs[i]@.len() > 0 && #[trigger] call_ensures(
                callback,
                (userdata, bufs[i]),
                (status, m),
            ) ==> status.0 == 0 && m == bufs[i]@.len(),
        spec_vectored_ends_at(callback, userdata, bufs, k, r),
    ensures
        k == bufs.len(),
        r == Ok::<usize, rustls_io_result>(spec_prefix_len(bufs, bufs.len() as int) as usize),
{
    if k < bufs.len() {
        lemma_prefix_len_grows(bufs, k + 1, bufs.len() as int);
        let (status, m) = choose|status: rustls_io_result, m: usize|
            {
                &&& #[trigger] call_ensures(callback, (userdata, bufs[k]), (status, m))
                &&& status.0 == 0 ==> m != bufs[k]@.len()
            };
        assert(call_ensures(callback, (userdata, bufs[k]), (status, m)));
        assert(false);
    }
}

} // verus!
