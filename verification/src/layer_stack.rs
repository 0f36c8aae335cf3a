//! Per-tab ordered stack of windows: rendered bottom to top, with only the
//! topmost window active for input.

use vstd::prelude::*;

verus! {

/// An ordered stack of windows; the top is the last pushed.
pub struct LayerStack<W> {
    layers: Vec<W>,
}

impl<W> LayerStack<W> {
    /// The windows from bottom to top.
    pub closed spec fn layers(self) -> Seq<W> {
        self.layers@
    }

    /// An empty stack.
    pub fn new() -> (r: LayerStack<W>)
        ensures
            r.layers() == Seq::<W>::empty(),
    {
        LayerStack { layers: Vec::new() }
    }

    /// How many windows are stacked.
    pub fn len(&self) -> (r: usize)
        ensures
            r == self.layers().len(),
    {
        self.layers.len()
    }

    /// Whether the stack holds no window.
    pub fn is_empty(&self) -> (r: bool)
        ensures
            r == (self.layers().len() == 0),
    {
        self.layers.len() == 0
    }

    /// Put `window` on top of the stack.
    pub fn push(&mut self, window: W)
        ensures
            final(self).layers() == old(self).layers().push(window),
    {
        self.layers.push(window);
    }

    /// Remove and return the top window; `None` on an empty stack, which is
    /// left unchanged — never an error.
    pub fn pop(&mut self) -> (r: Option<W>)
        ensures
            old(self).layers().len() == 0 ==> r is None && final(self).layers() == old(
                self,
            ).layers(),
            old(self).layers().len() > 0 ==> r == Some(old(self).layers().last())
                && final(self).layers() == old(self).layers().drop_last(),
    {
        if self.layers.len() == 0 {
            None
        } else {
            let w = self.layers.pop().unwrap();
            Some(w)
        }
    }

    /// Borrow the top window, the one active for input.
    pub fn last(&self) -> (r: Option<&W>)
        ensures
            self.layers().len() == 0 ==> r is None,
            self.layers().len() > 0 ==> r == Some(&self.layers().last()),
    {
        if self.layers.len() == 0 {
            None
        } else {
            Some(&self.layers[self.layers.len() - 1])
        }
    }

    /// Borrow the window at height `i`, counting from the bottom.
    pub fn get(&self, i: usize) -> (r: &W)
        requires
            i < self.layers().len(),
        ensures
            *r == self.layers()[i as int],
    {
        &self.layers[i]
    }

    /// Borrow the window at height `i` mutably, for event delivery.
    pub fn get_mut(&mut self, i: usize) -> (r: &mut W)
        requires
            i < old(self).layers().len(),
        ensures
            *r == old(self).layers()[i as int],
            final(self).layers() == old(self).layers().update(i as int, *final(r)),
    {
        &mut self.layers[i]
    }

    /// Replace the window at height `i`, counting from the bottom.
    pub fn set(&mut self, i: usize, window: W)
        requires
            i < old(self).layers().len(),
        ensures
            final(self).layers() == old(self).layers().update(i as int, window),
    {
        self.layers.set(i, window);
    }
}

/// Law: pushing a window and then popping returns exactly that window and
/// restores the stack, so a run of pushes followed by as many pops hands
/// the windows back in reverse order of pushing and empties the stack.
pub proof fn lemma_layer_stack_lifo<W>(layers: Seq<W>, window: W)
    ensures
        layers.push(window).len() == layers.len() + 1,
        layers.push(window).last() == window,
        layers.push(window).drop_last() == layers,
{
    assert(layers.push(window).drop_last() =~= layers);
}

} // verus!
