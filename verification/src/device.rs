//! The graphics device that performs no GPU work.
//!
//! Its whole state is the number of handles it has given out. A handle is the
//! position of its creation call, counted from one; zero is never a handle.

use vstd::prelude::*;

verus! {

/// The handle that a device gives out after `issued` earlier ones.
pub open spec fn next_handle(issued: nat) -> nat {
    issued + 1
}

/// Whether `id` is a handle of a device that has given out `issued` handles.
pub open spec fn is_handle(issued: nat, id: u64) -> bool {
    1 <= id <= issued
}

/// One creation call: the device went from `before` handles to `after`, and
/// answered `answer`.
pub open spec fn creation(before: nat, after: nat, answer: Result<u64, String>) -> bool {
    &&& after == before + 1
    &&& answer matches Ok(id)
    &&& id == next_handle(before)
}

/// One request to a device that went from `before` handles to `after`: a
/// creation call that returned `answer`, or, with no `answer`, any other
/// request, which leaves the count as it is.
pub open spec fn request(before: nat, after: nat, answer: Option<u64>) -> bool {
    match answer {
        Some(id) => creation(before, after, Ok(id)),
        None => after == before,
    }
}

/// A run of requests to one device: `counts[k]` is the number of handles given
/// out before request `k`, and `answers[k]` is the handle that request `k`
/// returned, if it was a creation call.
pub open spec fn device_run(counts: Seq<nat>, answers: Seq<Option<u64>>) -> bool {
    &&& counts.len() == answers.len() + 1
    &&& forall|k: int|
        0 <= k < answers.len() ==> request(#[trigger] counts[k], counts[k + 1], answers[k])
}

/// A run of creation calls and nothing else.
pub open spec fn creation_run(counts: Seq<nat>, answers: Seq<Option<u64>>) -> bool {
    &&& device_run(counts, answers)
    &&& forall|k: int| 0 <= k < answers.len() ==> #[trigger] answers[k] is Some
}

/// A graphics device that numbers its resources and does nothing else.
pub struct EmptyDeviceBackend {
    id_count: u64,
}

impl View for EmptyDeviceBackend {
    type V = nat;

    /// The number of handles given out so far.
    closed spec fn view(&self) -> nat {
        self.id_count as nat
    }
}

impl Default for EmptyDeviceBackend {
    /// A device that has given out no handle.
    fn default() -> (device: Self)
        ensures
            device@ == 0,
    {
        EmptyDeviceBackend { id_count: 0 }
    }
}

impl EmptyDeviceBackend {
    /// The number of handles given out so far.
    pub fn issued(&self) -> (count: u64)
        ensures
            count == self@,
    {
        self.id_count
    }

    fn allocate(&mut self) -> (answer: Result<u64, String>)
        requires
            old(self)@ < u64::MAX,
        ensures
            creation(old(self)@, final(self)@, answer),
    {
        self.id_count = self.id_count + 1;
        Ok(self.id_count)
    }

    /// The name of the graphics API in use: this device has none.
    pub fn api_name(&self) -> (name: &'static str)
        ensures
            name@ == Seq::<char>::empty(),
    {
        proof {
            reveal_strlit("");
        }
        ""
    }

    /// Numbers a pipeline. Neither shader source nor the layout is read.
    pub fn create_pipeline<A, O>(
        &mut self,
        vertex_source: &[u8],
        fragment_source: &[u8],
        vertex_attrs: &[A],
        options: O,
    ) -> (answer: Result<u64, String>)
        requires
            old(self)@ < u64::MAX,
        ensures
            creation(old(self)@, final(self)@, answer),
    {
        self.allocate()
    }

    /// Numbers a vertex buffer. The layout and the step mode are not read.
    pub fn create_vertex_buffer<A, M>(&mut self, attrs: &[A], step_mode: M) -> (answer: Result<
        u64,
        String,
    >)
        requires
            old(self)@ < u64::MAX,
        ensures
            creation(old(self)@, final(self)@, answer),
    {
        self.allocate()
    }

    /// Numbers an index buffer.
    pub fn create_index_buffer(&mut self) -> (answer: Result<u64, String>)
        requires
            old(self)@ < u64::MAX,
        ensures
            creation(old(self)@, final(self)@, answer),
    {
        self.allocate()
    }

    /// Numbers a uniform buffer. Slot and name are not read.
    pub fn create_uniform_buffer(&mut self, slot: u32, name: &str) -> (answer: Result<u64, String>)
        requires
            old(self)@ < u64::MAX,
        ensures
            creation(old(self)@, final(self)@, answer),
    {
        self.allocate()
    }

    /// Numbers a texture. The description is not read.
    pub fn create_texture<I>(&mut self, info: &I) -> (answer: Result<u64, String>)
        requires
            old(self)@ < u64::MAX,
        ensures
            creation(old(self)@, final(self)@, answer),
    {
        self.allocate()
    }

    /// Numbers a render texture. Neither the texture it draws into nor the
    /// description is read.
    pub fn create_render_texture<I>(&mut self, texture_id: u64, info: &I) -> (answer: Result<
        u64,
        String,
    >)
        requires
            old(self)@ < u64::MAX,
        ensures
            creation(old(self)@, final(self)@, answer),
    {
        self.allocate()
    }

    /// Accepts the bytes for any buffer, known or not, and keeps nothing.
    pub fn set_buffer_data(&mut self, id: u64, data: &[u8])
        ensures
            final(self)@ == old(self)@,
    {
    }

    /// Accepts a batch of commands for the default framebuffer or for a render
    /// texture, and draws nothing.
    pub fn render<C>(&mut self, commands: &[C], target: Option<u64>)
        ensures
            final(self)@ == old(self)@,
    {
    }

    /// Accepts a batch of handles to release, known or not. No handle is ever
    /// given out again, so nothing is kept of the release.
    pub fn clean(&mut self, to_clean: &[u64])
        ensures
            final(self)@ == old(self)@,
    {
    }

    /// Accepts the new size of the surface.
    pub fn set_size(&mut self, width: i32, height: i32)
        ensures
            final(self)@ == old(self)@,
    {
    }

    /// Accepts the new scale factor, given as the bit pattern of a 64-bit
    /// IEEE 754 number.
    pub fn set_dpi(&mut self, scale_factor_bits: u64)
        ensures
            final(self)@ == old(self)@,
    {
    }

    /// Accepts new texels for any texture, known or not.
    pub fn update_texture<U>(&mut self, texture: u64, opts: &U) -> (answer: Result<(), String>)
        ensures
            answer is Ok,
            final(self)@ == old(self)@,
    {
        Ok(())
    }

    /// Reads nothing back: `bytes` is left as it was.
    pub fn read_pixels<R>(&mut self, texture: u64, bytes: &mut [u8], opts: &R) -> (answer: Result<
        (),
        String,
    >)
        ensures
            answer is Ok,
            final(self)@ == old(self)@,
            final(bytes)@ == old(bytes)@,
    {
        Ok(())
    }
}

/// Along a run the count never falls.
pub proof fn lemma_count_never_falls(counts: Seq<nat>, answers: Seq<Option<u64>>, i: int, j: int)
    requires
        device_run(counts, answers),
        0 <= i <= j <= answers.len(),
    ensures
        counts[i] <= counts[j],
    decreases j - i,
{
    if i < j {
        lemma_count_never_falls(counts, answers, i, j - 1);
        assert(request(counts[j - 1], counts[j - 1 + 1], answers[j - 1]));
    }
}

/// Of two handles that one device returns, the later is the larger, whatever
/// was asked of the device in between, a release included. So no handle is
/// given out twice, and none is zero.
pub proof fn lemma_later_handle_is_larger(
    counts: Seq<nat>,
    answers: Seq<Option<u64>>,
    i: int,
    j: int,
)
    requires
        device_run(counts, answers),
        0 <= i < j < answers.len(),
        answers[i] is Some,
        answers[j] is Some,
    ensures
        0 < answers[i]->0 < answers[j]->0,
        !is_handle(counts[i], answers[i]->0),
        is_handle(counts[j], answers[i]->0),
{
    assert(request(counts[i], counts[i + 1], answers[i]));
    assert(request(counts[j], counts[j + 1], answers[j]));
    lemma_count_never_falls(counts, answers, i + 1, j);
}

/// Along a run of creation calls that starts at count `counts[0]`, call `k`
/// returns `counts[0] + k + 1`.
pub proof fn lemma_creation_run_ids(counts: Seq<nat>, answers: Seq<Option<u64>>, k: int)
    requires
        creation_run(counts, answers),
        0 <= k < answers.len(),
    ensures
        counts[k] == counts[0] + k,
        answers[k]->0 == counts[0] + k + 1,
    decreases k,
{
    if k > 0 {
        lemma_creation_run_ids(counts, answers, k - 1);
        assert(request(counts[k - 1], counts[k - 1 + 1], answers[k - 1]));
    }
    assert(request(counts[k], counts[k + 1], answers[k]));
}

/// The handles that any number of creation calls on a new device return are
/// 1, 2, 3 and so on: strictly increasing and pairwise distinct.
pub proof fn lemma_fresh_ids_increase(counts: Seq<nat>, answers: Seq<Option<u64>>)
    requires
        creation_run(counts, answers),
        counts[0] == 0,
    ensures
        forall|k: int| 0 <= k < answers.len() ==> (#[trigger] answers[k])->0 == k + 1,
        forall|i: int, j: int| 0 <= i < j < answers.len() ==> answers[i]->0 < answers[j]->0,
        forall|i: int, j: int|
            0 <= i < answers.len() && 0 <= j < answers.len() && i != j ==> answers[i]->0
                != answers[j]->0,
{
    assert forall|i: int, j: int| 0 <= i < j < answers.len() implies answers[i]->0
        < answers[j]->0 by {
        lemma_later_handle_is_larger(counts, answers, i, j);
    }
    assert forall|k: int| 0 <= k < answers.len() implies (#[trigger] answers[k])->0 == k + 1 by {
        lemma_creation_run_ids(counts, answers, k);
    }
}

} // verus!
