//! The audio device that mixes nothing.
//!
//! It keeps one table for sources and playing instances alike. An id is the
//! position of its entry, so the ids of one device are 0, 1, 2 and so on in the
//! order in which they were given out, whichever kind they name, and a released
//! entry keeps its place: no id is given out twice.
//!
//! A gain is held as the bit pattern of a 32-bit IEEE 754 number, so that what
//! is stored is echoed exactly.

use vstd::prelude::*;

verus! {

/// Where a playing instance stands in its life.
#[derive(Clone, Copy, Debug, PartialEq, Eq, Structural)]
pub enum Transport {
    Playing,
    Paused,
    /// The end: nothing leads out of it.
    Stopped,
}

/// One entry of the table.
#[derive(Clone, Copy, Debug, PartialEq, Eq, Structural)]
pub enum Slot {
    /// A loaded source.
    Source,
    /// A playing instance of the entry at `source`.
    Instance { source: u64, transport: Transport, volume: u32 },
    /// An entry that was released. It answers like an id that was never given
    /// out.
    Released,
}

impl Slot {
    /// The entry after a request to pause it.
    pub open spec fn paused(self) -> Slot {
        match self {
            Slot::Instance { source, transport: Transport::Playing, volume } => Slot::Instance {
                source,
                transport: Transport::Paused,
                volume,
            },
            _ => self,
        }
    }

    /// The entry after a request to resume it.
    pub open spec fn resumed(self) -> Slot {
        match self {
            Slot::Instance { source, transport: Transport::Paused, volume } => Slot::Instance {
                source,
                transport: Transport::Playing,
                volume,
            },
            _ => self,
        }
    }

    /// The entry after a request to stop it.
    pub open spec fn stopped(self) -> Slot {
        match self {
            Slot::Instance { source, transport, volume } => Slot::Instance {
                source,
                transport: Transport::Stopped,
                volume,
            },
            _ => self,
        }
    }

    /// The entry after a request to set its gain.
    pub open spec fn with_volume(self, bits: u32) -> Slot {
        match self {
            Slot::Instance { source, transport, volume } => Slot::Instance {
                source,
                transport,
                volume: bits,
            },
            _ => self,
        }
    }
}

/// Whether `id` occurs in `ids`.
pub open spec fn names(ids: Seq<u64>, id: int) -> bool {
    exists|k: int| 0 <= k < ids.len() && #[trigger] ids[k] == id
}

/// Entry `i` of `table` after a release of `sources` and `sounds`: a named
/// source and a named instance are released, and an instance whose source is
/// released with this call is stopped.
pub open spec fn clean_slot(table: Seq<Slot>, i: int, sources: Seq<u64>, sounds: Seq<u64>) -> Slot {
    match table[i] {
        Slot::Source => if names(sources, i) {
            Slot::Released
        } else {
            Slot::Source
        },
        Slot::Instance { source, transport, volume } => if names(sounds, i) {
            Slot::Released
        } else if names(sources, source as int) && source < table.len()
            && table[source as int] is Source {
            Slot::Instance { source, transport: Transport::Stopped, volume }
        } else {
            table[i]
        },
        Slot::Released => Slot::Released,
    }
}

/// What an audio device holds.
pub struct AudioState {
    /// The entries, by id.
    pub table: Seq<Slot>,
    /// The master gain, as a bit pattern.
    pub global_volume: u32,
}

impl AudioState {
    /// Whether the device has given out `id`.
    pub open spec fn issued(self, id: u64) -> bool {
        id < self.table.len()
    }

    /// Whether `id` names a source that has not been released.
    pub open spec fn is_source(self, id: u64) -> bool {
        self.issued(id) && self.table[id as int] is Source
    }

    /// Whether `id` names an instance that has not been released.
    pub open spec fn is_instance(self, id: u64) -> bool {
        self.issued(id) && self.table[id as int] is Instance
    }

    /// Whether `id` counts as stopped: it does unless it names an instance that
    /// is playing or paused.
    pub open spec fn is_stopped(self, id: u64) -> bool {
        self.is_instance(id) ==> self.table[id as int]->transport == Transport::Stopped
    }

    /// Whether `id` names a paused instance.
    pub open spec fn is_paused(self, id: u64) -> bool {
        self.is_instance(id) && self.table[id as int]->transport == Transport::Paused
    }

    /// The gain of instance `id`, and zero for any other id.
    pub open spec fn volume(self, id: u64) -> u32 {
        if self.is_instance(id) {
            self.table[id as int]->volume
        } else {
            0
        }
    }

    /// The id that the next source or instance gets.
    pub open spec fn next_id(self) -> nat {
        self.table.len()
    }

    /// The state with entry `id` replaced, and unchanged where `id` was never
    /// given out.
    pub open spec fn with_slot(self, id: u64, slot: Slot) -> AudioState {
        if self.issued(id) {
            AudioState { table: self.table.update(id as int, slot), ..self }
        } else {
            self
        }
    }

    /// The state after a new master gain.
    pub open spec fn with_global_volume(self, bits: u32) -> AudioState {
        AudioState { global_volume: bits, ..self }
    }

    /// The state after a source was loaded.
    pub open spec fn with_source(self) -> AudioState {
        AudioState { table: self.table.push(Slot::Source), ..self }
    }

    /// The state after an instance of `source` was started: it plays, at gain
    /// zero.
    pub open spec fn with_sound(self, source: u64) -> AudioState {
        AudioState {
            table: self.table.push(
                Slot::Instance { source, transport: Transport::Playing, volume: 0 },
            ),
            ..self
        }
    }

    /// The state after a request to pause `id`.
    pub open spec fn paused(self, id: u64) -> AudioState {
        self.with_slot(id, self.table[id as int].paused())
    }

    /// The state after a request to resume `id`.
    pub open spec fn resumed(self, id: u64) -> AudioState {
        self.with_slot(id, self.table[id as int].resumed())
    }

    /// The state after a request to stop `id`.
    pub open spec fn stopped(self, id: u64) -> AudioState {
        self.with_slot(id, self.table[id as int].stopped())
    }

    /// The state after a request to set the gain of `id`.
    pub open spec fn with_volume(self, id: u64, bits: u32) -> AudioState {
        self.with_slot(id, self.table[id as int].with_volume(bits))
    }

    /// The state after a release of `sources` and `sounds`.
    pub open spec fn cleaned(self, sources: Seq<u64>, sounds: Seq<u64>) -> AudioState {
        AudioState {
            table: Seq::new(
                self.table.len(),
                |i: int| clean_slot(self.table, i, sources, sounds),
            ),
            ..self
        }
    }
}

/// An audio device that keeps its table and plays nothing.
pub struct EmptyAudioBackend {
    slots: Vec<Slot>,
    volume: u32,
}

impl View for EmptyAudioBackend {
    type V = AudioState;

    closed spec fn view(&self) -> AudioState {
        AudioState { table: self.slots@, global_volume: self.volume }
    }
}

impl Default for EmptyAudioBackend {
    /// A device with an empty table and master gain zero.
    fn default() -> (device: Self)
        ensures
            device@.table.len() == 0,
            device@.global_volume == 0,
    {
        EmptyAudioBackend { slots: Vec::new(), volume: 0 }
    }
}

/// Whether `id` occurs in `ids`.
fn listed(ids: &[u64], id: u64) -> (found: bool)
    ensures
        found == names(ids@, id as int),
{
    let mut k: usize = 0;
    while k < ids.len()
        invariant
            k <= ids.len(),
            forall|j: int| 0 <= j < k ==> ids@[j] != id,
        decreases ids.len() - k,
    {
        if ids[k] == id {
            return true;
        }
        k = k + 1;
    }
    false
}

impl EmptyAudioBackend {
    /// The entry that `id` names, if the device has given `id` out.
    fn slot(&self, id: u64) -> (found: Option<Slot>)
        ensures
            found == if self@.issued(id) {
                Some(self@.table[id as int])
            } else {
                None
            },
    {
        if id < self.slots.len() as u64 {
            Some(self.slots[id as usize])
        } else {
            None
        }
    }

    /// Replaces the entry that `id` names, if the device has given `id` out.
    fn put(&mut self, id: u64, slot: Slot)
        ensures
            final(self)@ == old(self)@.with_slot(id, slot),
    {
        if id < self.slots.len() as u64 {
            self.slots.set(id as usize, slot);
        }
    }

    /// Stores the master gain, unclamped.
    pub fn set_global_volume(&mut self, volume_bits: u32)
        ensures
            final(self)@ == old(self)@.with_global_volume(volume_bits),
    {
        self.volume = volume_bits;
    }

    /// The master gain as it was last stored.
    pub fn global_volume(&self) -> (volume_bits: u32)
        ensures
            volume_bits == self@.global_volume,
    {
        self.volume
    }

    /// Enters a source and returns its id. The bytes are not decoded.
    pub fn create_source(&mut self, bytes: &[u8]) -> (answer: Result<u64, String>)
        ensures
            answer matches Ok(id) && id == old(self)@.next_id(),
            final(self)@ == old(self)@.with_source(),
    {
        let id = self.slots.len() as u64;
        self.slots.push(Slot::Source);
        Ok(id)
    }

    /// Enters a playing instance of `source` and returns its id, which is no id
    /// of a source. Whether `source` names a source is not asked, and since
    /// nothing is played the instance does not end by itself, whatever
    /// `repeat` says.
    pub fn play_sound(&mut self, source: u64, repeat: bool) -> (answer: Result<u64, String>)
        ensures
            answer matches Ok(id) && id == old(self)@.next_id(),
            final(self)@ == old(self)@.with_sound(source),
    {
        let id = self.slots.len() as u64;
        self.slots.push(Slot::Instance { source, transport: Transport::Playing, volume: 0 });
        Ok(id)
    }

    /// Pauses a playing instance. For any other id nothing changes.
    pub fn pause(&mut self, sound: u64)
        ensures
            final(self)@ == old(self)@.paused(sound),
    {
        match self.slot(sound) {
            Some(Slot::Instance { source, transport: Transport::Playing, volume }) => {
                self.put(sound, Slot::Instance { source, transport: Transport::Paused, volume });
            },
            _ => {
                assert(self@.paused(sound).table =~= self@.table);
            },
        }
    }

    /// Resumes a paused instance. For any other id nothing changes.
    pub fn resume(&mut self, sound: u64)
        ensures
            final(self)@ == old(self)@.resumed(sound),
    {
        match self.slot(sound) {
            Some(Slot::Instance { source, transport: Transport::Paused, volume }) => {
                self.put(sound, Slot::Instance { source, transport: Transport::Playing, volume });
            },
            _ => {
                assert(self@.resumed(sound).table =~= self@.table);
            },
        }
    }

    /// Stops an instance for good. For any other id nothing changes.
    pub fn stop(&mut self, sound: u64)
        ensures
            final(self)@ == old(self)@.stopped(sound),
    {
        match self.slot(sound) {
            Some(Slot::Instance { source, transport, volume }) => {
                self.put(sound, Slot::Instance { source, transport: Transport::Stopped, volume });
            },
            _ => {
                assert(self@.stopped(sound).table =~= self@.table);
            },
        }
    }

    /// Whether `sound` counts as stopped. Only an instance that is playing or
    /// paused does not.
    pub fn is_stopped(&mut self, sound: u64) -> (stopped: bool)
        ensures
            stopped == old(self)@.is_stopped(sound),
            final(self)@ == old(self)@,
    {
        match self.slot(sound) {
            Some(Slot::Instance { source, transport: Transport::Playing, volume }) => false,
            Some(Slot::Instance { source, transport: Transport::Paused, volume }) => false,
            _ => true,
        }
    }

    /// Whether `sound` names a paused instance.
    pub fn is_paused(&mut self, sound: u64) -> (paused: bool)
        ensures
            paused == old(self)@.is_paused(sound),
            final(self)@ == old(self)@,
    {
        match self.slot(sound) {
            Some(Slot::Instance { source, transport: Transport::Paused, volume }) => true,
            _ => false,
        }
    }

    /// Stores the gain of an instance. For any other id nothing changes.
    pub fn set_volume(&mut self, sound: u64, volume_bits: u32)
        ensures
            final(self)@ == old(self)@.with_volume(sound, volume_bits),
    {
        match self.slot(sound) {
            Some(Slot::Instance { source, transport, volume }) => {
                self.put(sound, Slot::Instance { source, transport, volume: volume_bits });
            },
            _ => {
                assert(self@.with_volume(sound, volume_bits).table =~= self@.table);
            },
        }
    }

    /// The gain of an instance as it was last stored, and zero for any other id.
    pub fn volume(&self, sound: u64) -> (volume_bits: u32)
        ensures
            volume_bits == self@.volume(sound),
    {
        match self.slot(sound) {
            Some(Slot::Instance { source, transport, volume }) => volume,
            _ => 0,
        }
    }

    /// Releases the named sources and instances, and stops every instance of a
    /// source that is released here. An id that names nothing, or nothing of
    /// its list's kind, is passed over.
    pub fn clean(&mut self, sources: &[u64], sounds: &[u64])
        ensures
            final(self)@ == old(self)@.cleaned(sources@, sounds@),
    {
        let ghost before = self@.table;
        let n = self.slots.len();
        let mut i: usize = 0;
        while i < n
            invariant
                i <= n,
                n == before.len(),
                self@.table.len() == n,
                self@.global_volume == old(self)@.global_volume,
                forall|j: int|
                    0 <= j < n ==> #[trigger] self@.table[j] == if j < i && before[j] is Instance {
                        clean_slot(before, j, sources@, sounds@)
                    } else {
                        before[j]
                    },
            decreases n - i,
        {
            match self.slots[i] {
                Slot::Instance { source, transport, volume } => {
                    if listed(sounds, i as u64) {
                        self.slots.set(i, Slot::Released);
                    } else if listed(sources, source) {
                        match self.slot(source) {
                            Some(Slot::Source) => {
                                self.slots.set(
                                    i,
                                    Slot::Instance { source, transport: Transport::Stopped, volume },
                                );
                            },
                            _ => {},
                        }
                    }
                },
                _ => {},
            }
            i = i + 1;
        }
        let mut i: usize = 0;
        while i < n
            invariant
                i <= n,
                n == before.len(),
                self@.table.len() == n,
                self@.global_volume == old(self)@.global_volume,
                forall|j: int|
                    0 <= j < n ==> #[trigger] self@.table[j] == if j < i || before[j] is Instance {
                        clean_slot(before, j, sources@, sounds@)
                    } else {
                        before[j]
                    },
            decreases n - i,
        {
            match self.slots[i] {
                Slot::Source => {
                    if listed(sources, i as u64) {
                        self.slots.set(i, Slot::Released);
                    }
                },
                _ => {},
            }
            i = i + 1;
        }
        assert(self@.table =~= old(self)@.cleaned(sources@, sounds@).table);
    }
}

/// One request that changes what an audio device holds.
pub enum AudioOp {
    SetGlobalVolume { bits: u32 },
    CreateSource,
    PlaySound { source: u64 },
    Pause { sound: u64 },
    Resume { sound: u64 },
    Stop { sound: u64 },
    SetVolume { sound: u64, bits: u32 },
    Clean { sources: Seq<u64>, sounds: Seq<u64> },
}

impl AudioState {
    /// The state after `op`.
    pub open spec fn after(self, op: AudioOp) -> AudioState {
        match op {
            AudioOp::SetGlobalVolume { bits } => self.with_global_volume(bits),
            AudioOp::CreateSource => self.with_source(),
            AudioOp::PlaySound { source } => self.with_sound(source),
            AudioOp::Pause { sound } => self.paused(sound),
            AudioOp::Resume { sound } => self.resumed(sound),
            AudioOp::Stop { sound } => self.stopped(sound),
            AudioOp::SetVolume { sound, bits } => self.with_volume(sound, bits),
            AudioOp::Clean { sources, sounds } => self.cleaned(sources, sounds),
        }
    }

    /// The id that `op` returns in this state, if it returns one.
    pub open spec fn answer(self, op: AudioOp) -> Option<nat> {
        match op {
            AudioOp::CreateSource => Some(self.next_id()),
            AudioOp::PlaySound { source } => Some(self.next_id()),
            _ => None,
        }
    }
}

/// A run of requests on one device: `states[k]` is what it holds before request
/// `k`.
pub open spec fn audio_run(states: Seq<AudioState>, ops: Seq<AudioOp>) -> bool {
    &&& states.len() == ops.len() + 1
    &&& forall|k: int| 0 <= k < ops.len() ==> states[k + 1] == (#[trigger] states[k]).after(ops[k])
}

/// No request shortens the table, and a request that returns an id lengthens
/// it by one.
pub proof fn lemma_table_grows(state: AudioState, op: AudioOp)
    ensures
        state.after(op).table.len() == state.table.len() + if state.answer(op) is Some {
            1int
        } else {
            0int
        },
{
}

/// Along a run the table never gets shorter.
pub proof fn lemma_run_grows(states: Seq<AudioState>, ops: Seq<AudioOp>, i: int, j: int)
    requires
        audio_run(states, ops),
        0 <= i <= j <= ops.len(),
    ensures
        states[i].table.len() <= states[j].table.len(),
    decreases j - i,
{
    if i < j {
        lemma_run_grows(states, ops, i, j - 1);
        lemma_table_grows(states[j - 1], ops[j - 1]);
        assert(states[j - 1 + 1] == states[j - 1].after(ops[j - 1]));
    }
}

/// Of two ids that one device returns, the later is the larger, whatever was
/// asked of the device in between.
pub proof fn lemma_later_id_is_larger(states: Seq<AudioState>, ops: Seq<AudioOp>, i: int, j: int)
    requires
        audio_run(states, ops),
        0 <= i < j < ops.len(),
        states[i].answer(ops[i]) is Some,
        states[j].answer(ops[j]) is Some,
    ensures
        states[i].answer(ops[i])->0 < states[j].answer(ops[j])->0,
{
    lemma_table_grows(states[i], ops[i]);
    assert(states[i + 1] == states[i].after(ops[i]));
    lemma_run_grows(states, ops, i + 1, j);
}

/// The id of an instance is never the id of a source of the same device,
/// whichever of the two was made first.
pub proof fn lemma_sound_id_is_no_source_id(
    states: Seq<AudioState>,
    ops: Seq<AudioOp>,
    i: int,
    j: int,
)
    requires
        audio_run(states, ops),
        0 <= i < ops.len(),
        0 <= j < ops.len(),
        ops[i] is CreateSource,
        ops[j] is PlaySound,
    ensures
        states[i].answer(ops[i])->0 != states[j].answer(ops[j])->0,
{
    if i < j {
        lemma_later_id_is_larger(states, ops, i, j);
    } else {
        lemma_later_id_is_larger(states, ops, j, i);
    }
}

/// An id that the device never gave out counts as stopped and not as paused,
/// and has gain zero.
pub proof fn lemma_unknown_id(state: AudioState, id: u64)
    requires
        !state.issued(id),
    ensures
        state.is_stopped(id),
        !state.is_paused(id),
        state.volume(id) == 0,
{
}

/// An id that names no instance, because it was never given out, names a
/// source or was released, is passed over by every request that takes an
/// instance.
pub proof fn lemma_no_instance_is_ignored(state: AudioState, id: u64, bits: u32)
    requires
        !state.is_instance(id),
    ensures
        state.paused(id) == state,
        state.resumed(id) == state,
        state.stopped(id) == state,
        state.with_volume(id, bits) == state,
        state.is_stopped(id),
        !state.is_paused(id),
{
    assert(state.paused(id).table =~= state.table);
    assert(state.resumed(id).table =~= state.table);
    assert(state.stopped(id).table =~= state.table);
    assert(state.with_volume(id, bits).table =~= state.table);
}

/// Nothing leads out of `Stopped`: a stopped instance stays stopped under
/// every request but its release.
pub proof fn lemma_stopped_is_final(state: AudioState, op: AudioOp, id: u64)
    requires
        state.is_instance(id),
        state.is_stopped(id),
    ensures
        state.after(op).is_stopped(id),
{
}

/// Nothing is played, so no instance ends by itself, looping or not: an
/// instance that is playing or paused ends only by a request to stop it, or by
/// a release that names it or its source.
pub proof fn lemma_ends_on_request_only(state: AudioState, op: AudioOp, id: u64)
    requires
        state.is_instance(id),
        !state.is_stopped(id),
        state.after(op).is_stopped(id),
    ensures
        match op {
            AudioOp::Stop { sound } => sound == id,
            AudioOp::Clean { sources, sounds } => names(sounds, id as int) || names(
                sources,
                state.table[id as int]->source as int,
            ),
            _ => false,
        },
{
}

/// A released entry stays released under every request.
pub proof fn lemma_released_is_final(state: AudioState, op: AudioOp, id: u64)
    requires
        state.issued(id),
        state.table[id as int] is Released,
    ensures
        state.after(op).issued(id),
        state.after(op).table[id as int] is Released,
{
}

/// After a release, every id that it named as a source or as an instance, and
/// that named one, is released, and every instance of such a source is stopped.
pub proof fn lemma_clean_releases(state: AudioState, sources: Seq<u64>, sounds: Seq<u64>, id: u64)
    requires
        state.issued(id),
    ensures
        state.is_source(id) && names(sources, id as int) ==> state.cleaned(
            sources,
            sounds,
        ).table[id as int] is Released,
        state.is_instance(id) && names(sounds, id as int) ==> state.cleaned(
            sources,
            sounds,
        ).table[id as int] is Released,
        state.is_instance(id) && state.is_source(state.table[id as int]->source) && names(
            sources,
            state.table[id as int]->source as int,
        ) ==> state.cleaned(sources, sounds).is_stopped(id),
{
}

/// Releasing the same ids a second time changes nothing.
pub proof fn lemma_clean_twice(state: AudioState, sources: Seq<u64>, sounds: Seq<u64>)
    ensures
        state.cleaned(sources, sounds).cleaned(sources, sounds) == state.cleaned(sources, sounds),
{
    let once = state.cleaned(sources, sounds);
    let twice = once.cleaned(sources, sounds);
    assert forall|i: int| 0 <= i < once.table.len() implies twice.table[i] == once.table[i] by {
        assert(once.table[i] == clean_slot(state.table, i, sources, sounds));
        assert(twice.table[i] == clean_slot(once.table, i, sources, sounds));
    }
    assert(twice.table =~= once.table);
}

/// Two releases in a row, whose lists may overlap, amount to one release of
/// both lists together.
pub proof fn lemma_clean_then_clean(
    state: AudioState,
    sources1: Seq<u64>,
    sounds1: Seq<u64>,
    sources2: Seq<u64>,
    sounds2: Seq<u64>,
)
    ensures
        state.cleaned(sources1, sounds1).cleaned(sources2, sounds2) == state.cleaned(
            sources1 + sources2,
            sounds1 + sounds2,
        ),
{
    let first = state.cleaned(sources1, sounds1);
    let both = first.cleaned(sources2, sounds2);
    let joint = state.cleaned(sources1 + sources2, sounds1 + sounds2);
    lemma_names_concat(sources1, sources2);
    lemma_names_concat(sounds1, sounds2);
    assert forall|i: int| 0 <= i < state.table.len() implies both.table[i] == joint.table[i] by {
        assert(first.table[i] == clean_slot(state.table, i, sources1, sounds1));
        assert(both.table[i] == clean_slot(first.table, i, sources2, sounds2));
        assert(joint.table[i] == clean_slot(
            state.table,
            i,
            sources1 + sources2,
            sounds1 + sounds2,
        ));
        if state.table[i] is Instance {
            let source = state.table[i]->source;
            if source < state.table.len() {
                assert(first.table[source as int] == clean_slot(
                    state.table,
                    source as int,
                    sources1,
                    sounds1,
                ));
            }
        }
    }
    assert(both.table =~= joint.table);
}

/// An id occurs in two lists put together exactly if it occurs in one of them.
pub proof fn lemma_names_concat(a: Seq<u64>, b: Seq<u64>)
    ensures
        forall|id: int| names(a + b, id) <==> names(a, id) || names(b, id),
{
    assert forall|id: int| names(a + b, id) <==> names(a, id) || names(b, id) by {
        if names(a + b, id) {
            let k = choose|k: int| 0 <= k < (a + b).len() && #[trigger] (a + b)[k] == id;
            if k < a.len() {
                assert(a[k] == id);
            } else {
                assert(b[k - a.len()] == id);
            }
        }
        if names(a, id) {
            let k = choose|k: int| 0 <= k < a.len() && #[trigger] a[k] == id;
            assert((a + b)[k] == id);
        }
        if names(b, id) {
            let k = choose|k: int| 0 <= k < b.len() && #[trigger] b[k] == id;
            assert((a + b)[k + a.len()] == id);
        }
    }
}

} // verus!
