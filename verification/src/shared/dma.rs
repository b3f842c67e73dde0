use vstd::prelude::*;

verus! {

/// Fixed-size buffer of `N` elements handed to the DMA engine.
pub struct DmaBuf<T, const N: usize> {
    buf: [T; N],
}

impl<T, const N: usize> View for DmaBuf<T, N> {
    type V = Seq<T>;

    closed spec fn view(&self) -> Seq<T> {
        self.buf@
    }
}

impl<T, const N: usize> DmaBuf<T, N> {
    /// A buffer of `N` default-valued elements.
    pub fn new() -> (r: Self)
        where T: Copy + Default,
        ensures
            r@.len() == N,
            forall|i: int| 0 <= i < N ==> call_ensures(T::default, (), #[trigger] r@[i]),
    {
        let v = T::default();
        let r = DmaBuf { buf: [v; N] };
        assert(forall|i: int| 0 <= i < N ==> #[trigger] r@[i] == v);
        r
    }

    /// Number of elements: `N`.
    pub fn len(&self) -> (r: usize)
        ensures
            r == N,
    {
        N
    }

    /// The elements, for the DMA engine or the reader to fill and read.
    pub fn as_mut_slice(&mut self) -> (r: &mut [T])
        ensures
            r@ == old(self)@,
            final(self)@ == final(r)@,
    {
        &mut self.buf
    }
}

} // verus!
