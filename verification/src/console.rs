use vstd::prelude::*;

verus! {

/// The append-only output log of a run.
#[derive(Debug)]
pub struct Console {
    /// Everything printed so far, in order.
    pub buffer: String,
}

impl Console {
    /// An empty console.
    pub fn new() -> (r: Self)
        ensures
            r.buffer@ == Seq::<char>::empty(),
    {
        Console { buffer: String::new() }
    }

    /// Appends `string` to the console's buffer.
    pub fn print(&mut self, string: &str)
        ensures
            final(self).buffer@ == old(self).buffer@ + string@,
    {
        self.buffer.append(string);
    }
}

impl Default for Console {
    /// An empty console.
    fn default() -> (r: Self)
        ensures
            r.buffer@ == Seq::<char>::empty(),
    {
        Console::new()
    }
}

} // verus!
