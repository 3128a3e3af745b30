//! The queue of files that wait to be shown in the one main window.

use vstd::prelude::*;

verus! {

/// A copy of a list of texts.
pub fn copy_texts(texts: &Vec<String>) -> (r: Vec<String>)
    ensures
        r.deep_view() == texts.deep_view(),
{
    let mut out: Vec<String> = Vec::new();
    let mut i: usize = 0;
    while i < texts.len()
        invariant
            i <= texts.len(),
            out.len() == i,
            forall|j: int| 0 <= j < i ==> out[j]@ == texts[j]@,
        decreases texts.len() - i,
    {
        out.push(texts[i].clone());
        i += 1;
    }
    out
}

/// The file identities that wait to be shown in the one main window, oldest first.
pub struct PendingFiles {
    files: Vec<String>,
}

impl View for PendingFiles {
    type V = Seq<Seq<char>>;

    closed spec fn view(&self) -> Seq<Seq<char>> {
        self.files.deep_view()
    }
}

impl PendingFiles {
    /// A queue in which nothing waits.
    pub fn new() -> (r: Self)
        ensures
            r@ == Seq::<Seq<char>>::empty(),
    {
        let r = PendingFiles { files: Vec::new() };
        r
    }

    /// How many identities wait.
    pub fn len(&self) -> (r: usize)
        ensures
            r == self@.len(),
    {
        self.files.len()
    }

    /// Puts `identity` at the end of the queue.
    pub fn enqueue(&mut self, identity: String)
        ensures
            final(self)@ == old(self)@.push(identity@),
    {
        self.files.push(identity);
    }

    /// Puts every identity of `batch` at the end of the queue, in the batch's order.
    pub fn enqueue_all(&mut self, batch: &Vec<String>)
        ensures
            final(self)@ == old(self)@ + batch.deep_view(),
    {
        let mut i: usize = 0;
        while i < batch.len()
            invariant
                i <= batch.len(),
                self@ == old(self)@ + batch.deep_view().take(i as int),
            decreases batch.len() - i,
        {
            self.enqueue(batch[i].clone());
            i += 1;
        }
    }

    /// Takes everything out of the queue, oldest first, in one step.
    pub fn drain_all(&mut self) -> (r: Vec<String>)
        ensures
            r.deep_view() == old(self)@,
            final(self)@ == Seq::<Seq<char>>::empty(),
    {
        let mut out: Vec<String> = Vec::new();
        core::mem::swap(&mut self.files, &mut out);
        out
    }

    /// The waiting identities, oldest first; the queue keeps them.
    pub fn get_opened_files(&self) -> (r: Vec<String>)
        ensures
            r.deep_view() == self@,
    {
        copy_texts(&self.files)
    }

    /// Empties the queue. On an empty queue this changes nothing.
    pub fn clear_opened_files(&mut self)
        ensures
            final(self)@ == Seq::<Seq<char>>::empty(),
            old(self)@.len() == 0 ==> final(self)@ == old(self)@,
    {
        self.files.clear();
    }
}

} // verus!
