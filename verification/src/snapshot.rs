//! The player snapshot and the decoding of state broadcasts.
//!
//! A state broadcast is a JSON object carrying the loop flag, the volume,
//! the queue position, the player phase, the queue contents and the
//! current track. A valid broadcast replaces the stored snapshot in full;
//! a malformed one is rejected as a whole, so the previous snapshot stays
//! visible. Decoding is specified exactly over the parsed JSON tree:
//! which fields are required, which phase names are known, that the
//! volume stays on its scale, how durations truncate, and that queue
//! identifiers are unique — and the decoder is verified to return
//! precisely the snapshot that specification names.

use vstd::prelude::*;

use crate::json_value::{json_of, parse_json_model, JsonModel};

verus! {

/// The player phase as it stands on the wire.
#[derive(Clone, Copy, PartialEq, Eq, Structural, Debug)]
pub enum PlayerState {
    Idle,
    Playing,
    Paused,
    Stopped,
    Disconnected,
}

/// State set for the music player, as the presentation layer sees it.
#[derive(Clone, Copy, PartialEq, Eq, Structural, Debug)]
pub enum MusicPlayerState {
    Idle,
    Playing,
    Paused,
    Stopped,
    Disconnected,
}

/// The presentation-layer phase for each wire phase.
pub open spec fn music_state(s: PlayerState) -> MusicPlayerState {
    match s {
        PlayerState::Idle => MusicPlayerState::Idle,
        PlayerState::Playing => MusicPlayerState::Playing,
        PlayerState::Paused => MusicPlayerState::Paused,
        PlayerState::Stopped => MusicPlayerState::Stopped,
        PlayerState::Disconnected => MusicPlayerState::Disconnected,
    }
}

/// The wire phase for each phase name, or nothing for an unknown name.
pub open spec fn state_of_name(s: Seq<char>) -> Option<PlayerState> {
    if s == "idle"@ {
        Some(PlayerState::Idle)
    } else if s == "playing"@ {
        Some(PlayerState::Playing)
    } else if s == "paused"@ {
        Some(PlayerState::Paused)
    } else if s == "stopped"@ {
        Some(PlayerState::Stopped)
    } else if s == "disconnected"@ {
        Some(PlayerState::Disconnected)
    } else {
        None
    }
}

/// Maps a phase name from the wire to the phase it names.
fn parse_state(name: &String) -> (r: Option<PlayerState>)
    ensures
        r == state_of_name(name@),
{
    if name.eq(&String::from_str("idle")) {
        Some(PlayerState::Idle)
    } else if name.eq(&String::from_str("playing")) {
        Some(PlayerState::Playing)
    } else if name.eq(&String::from_str("paused")) {
        Some(PlayerState::Paused)
    } else if name.eq(&String::from_str("stopped")) {
        Some(PlayerState::Stopped)
    } else if name.eq(&String::from_str("disconnected")) {
        Some(PlayerState::Disconnected)
    } else {
        None
    }
}

/// One entry of the play queue. The duration is kept in whole seconds.
#[derive(Clone, Debug)]
pub struct QueueEntry {
    pub id: String,
    pub title: String,
    pub uploader: String,
    pub duration: u64,
    pub webpage_url: String,
    pub uploader_url: Option<String>,
    pub thumbnail: Option<String>,
}

impl QueueEntry {
    /// The unique identifier of the track.
    pub fn id(&self) -> (r: &str)
        ensures
            r@ == self.id@,
    {
        self.id.as_str()
    }

    /// The track title.
    pub fn title(&self) -> (r: &str)
        ensures
            r@ == self.title@,
    {
        self.title.as_str()
    }

    /// The uploader of the track.
    pub fn uploader(&self) -> (r: &str)
        ensures
            r@ == self.uploader@,
    {
        self.uploader.as_str()
    }

    /// The duration of the track in whole seconds.
    pub fn duration(&self) -> (r: u64)
        ensures
            r == self.duration,
    {
        self.duration
    }

    /// The track URL.
    pub fn webpage_url(&self) -> (r: &str)
        ensures
            r@ == self.webpage_url@,
    {
        self.webpage_url.as_str()
    }

    /// The track uploader URL, when one was broadcast.
    pub fn uploader_url(&self) -> (r: Option<&str>)
        ensures
            match r {
                Some(s) => self.uploader_url matches Some(u) && s@ == u@,
                None => self.uploader_url is None,
            },
    {
        match &self.uploader_url {
            Some(u) => Some(u.as_str()),
            None => None,
        }
    }

    /// The track thumbnail URL, when one was broadcast.
    pub fn thumbnail(&self) -> (r: Option<&str>)
        ensures
            match r {
                Some(s) => self.thumbnail matches Some(u) && s@ == u@,
                None => self.thumbnail is None,
            },
    {
        match &self.thumbnail {
            Some(u) => Some(u.as_str()),
            None => None,
        }
    }
}

/// Whether `i` is the index of the first queue entry carrying `id`.
pub open spec fn is_first_with_id(q: Seq<QueueEntry>, id: Seq<char>, i: int) -> bool {
    0 <= i < q.len() && q[i].id@ == id && (forall|j: int| 0 <= j < i ==> q[j].id@ != id)
}

/// The complete player state at a point in time.
pub struct PlayerModel {
    pub loop_enabled: bool,
    pub volume: u8,
    pub position: i64,
    pub state: PlayerState,
    pub queue: Vec<QueueEntry>,
    pub current: Option<QueueEntry>,
}

/// The snapshot shown before any broadcast has arrived.
pub open spec fn is_default_model(m: PlayerModel) -> bool {
    &&& m.loop_enabled == true
    &&& m.volume == 100
    &&& m.position == 0
    &&& m.state == PlayerState::Idle
    &&& m.queue@ == Seq::<QueueEntry>::empty()
    &&& m.current is None
}

impl Default for PlayerModel {
    /// The default snapshot: loop on, full volume, idle, empty queue,
    /// no current track.
    fn default() -> (r: Self)
        ensures
            is_default_model(r),
    {
        PlayerModel {
            loop_enabled: true,
            volume: 100,
            position: 0,
            state: PlayerState::Idle,
            queue: Vec::new(),
            current: None,
        }
    }
}

/// No two queue entries carry the same identifier.
pub open spec fn unique_ids(q: Seq<QueueEntry>) -> bool {
    forall|i: int, j: int| 0 <= i < j < q.len() ==> q[i].id@ != q[j].id@
}

/// The player state of a snapshot, with the queue as a sequence.
#[verifier::ext_equal]
pub struct PlayerModelView {
    pub loop_enabled: bool,
    pub volume: u8,
    pub position: i64,
    pub state: PlayerState,
    pub queue: Seq<QueueEntry>,
    pub current: Option<QueueEntry>,
}

impl View for PlayerModel {
    type V = PlayerModelView;

    open spec fn view(&self) -> PlayerModelView {
        PlayerModelView {
            loop_enabled: self.loop_enabled,
            volume: self.volume,
            position: self.position,
            state: self.state,
            queue: self.queue@,
            current: self.current,
        }
    }
}

impl PlayerModel {
    /// The volume never leaves its scale, and the queue never carries
    /// one identifier twice: identifiers stay unique within a queue.
    pub open spec fn wf(&self) -> bool {
        self.volume <= 100 && unique_ids(self.queue@)
    }

    /// Check if queue loop is enabled.
    pub fn loop_enabled(&self) -> (r: bool)
        ensures
            r == self.loop_enabled,
    {
        self.loop_enabled
    }

    /// Get the current volume level, from 0 to 100.
    pub fn volume(&self) -> (r: u8)
        ensures
            r == self.volume,
    {
        self.volume
    }

    /// Get the current state of the player.
    pub fn state(&self) -> (r: MusicPlayerState)
        ensures
            r == music_state(self.state),
    {
        match self.state {
            PlayerState::Idle => MusicPlayerState::Idle,
            PlayerState::Playing => MusicPlayerState::Playing,
            PlayerState::Paused => MusicPlayerState::Paused,
            PlayerState::Stopped => MusicPlayerState::Stopped,
            PlayerState::Disconnected => MusicPlayerState::Disconnected,
        }
    }

    /// Get the contents of the queue.
    pub fn queue(&self) -> (r: &Vec<QueueEntry>)
        ensures
            r == &self.queue,
    {
        &self.queue
    }

    /// The entry's current index in the queue, looked up by identifier
    /// at call time: the first entry with this identifier, or nothing
    /// when no entry carries it. `move` and `remove` commands must take
    /// their offset from here, not from a value captured when a control
    /// was rendered, since the queue may have been reordered since.
    pub fn resolve_offset(&self, id: &str) -> (r: Option<usize>)
        ensures
            match r {
                Some(i) => is_first_with_id(self.queue@, id@, i as int),
                None => forall|j: int| 0 <= j < self.queue@.len() ==> self.queue@[j].id@ != id@,
            },
    {
        let key = String::from_str(id);
        let len = self.queue.len();
        let mut i: usize = 0;
        while i < len
            invariant
                len == self.queue@.len(),
                i <= len,
                key@ == id@,
                forall|j: int| 0 <= j < i ==> self.queue@[j].id@ != id@,
            decreases len - i,
        {
            if self.queue[i].id == key {
                return Some(i);
            }
            i = i + 1;
        }
        None
    }
}

/// Whether the character is a decimal digit.
pub open spec fn is_digit(c: char) -> bool {
    48 <= c as int <= 57
}

/// Whether every character of the sequence is a decimal digit.
pub open spec fn all_digits(s: Seq<char>) -> bool {
    forall|i: int| 0 <= i < s.len() ==> is_digit(s[i])
}

/// The value of a sequence of decimal digits.
pub open spec fn digits_val(s: Seq<char>) -> int
    decreases s.len(),
{
    if s.len() == 0 {
        0
    } else {
        digits_val(s.drop_last()) * 10 + (s.last() as int - 48)
    }
}

/// The end of the run of digits that starts at `i`.
pub open spec fn digit_run(s: Seq<char>, i: int) -> int
    decreases s.len() - i when 0 <= i <= s.len()
{
    if i < s.len() && is_digit(s[i]) {
        digit_run(s, i + 1)
    } else {
        i
    }
}

/// Whether the text is a plain non-negative JSON number this crate
/// accepts as a duration: digits, optionally followed by a dot and more
/// digits, with no more than nineteen integer digits (so the value fits
/// an unsigned 64-bit word).
pub open spec fn valid_secs_text(s: Seq<char>) -> bool {
    let run = digit_run(s, 0);
    &&& run > 0
    &&& run <= 19
    &&& (run == s.len() || (s[run] == '.' && run + 1 < s.len() && digit_run(s, run + 1)
        == s.len()))
}

/// The whole seconds a duration text stands for: its integer part, with
/// any fraction truncated away.
pub open spec fn secs_of_text(s: Seq<char>) -> Option<u64> {
    if valid_secs_text(s) {
        Some(digits_val(s.subrange(0, digit_run(s, 0))) as u64)
    } else {
        None
    }
}

/// Ten to the given power.
pub open spec fn pow10(n: nat) -> int
    decreases n,
{
    if n == 0 {
        1
    } else {
        10 * pow10((n - 1) as nat)
    }
}

proof fn lemma_pow10_pos(n: nat)
    ensures
        pow10(n) >= 1,
    decreases n,
{
    if n > 0 {
        lemma_pow10_pos((n - 1) as nat);
    }
}

proof fn lemma_pow10_mono(a: nat, b: nat)
    requires
        a <= b,
    ensures
        pow10(a) <= pow10(b),
    decreases b,
{
    if a < b {
        lemma_pow10_mono(a, (b - 1) as nat);
        lemma_pow10_pos((b - 1) as nat);
    }
}

proof fn lemma_pow10_19()
    ensures
        pow10(19) == 10000000000000000000,
{
    assert(pow10(0) == 1);
    assert(pow10(1) == 10);
    assert(pow10(2) == 100);
    assert(pow10(3) == 1000);
    assert(pow10(4) == 10000);
    assert(pow10(5) == 100000);
    assert(pow10(6) == 1000000);
    assert(pow10(7) == 10000000);
    assert(pow10(8) == 100000000);
    assert(pow10(9) == 1000000000);
    assert(pow10(10) == 10000000000);
    assert(pow10(11) == 100000000000);
    assert(pow10(12) == 1000000000000);
    assert(pow10(13) == 10000000000000);
    assert(pow10(14) == 100000000000000);
    assert(pow10(15) == 1000000000000000);
    assert(pow10(16) == 10000000000000000);
    assert(pow10(17) == 100000000000000000);
    assert(pow10(18) == 1000000000000000000);
}

/// A digit sequence's value is non-negative and below ten to its length.
proof fn lemma_digits_val_bound(s: Seq<char>)
    requires
        all_digits(s),
    ensures
        0 <= digits_val(s) < pow10(s.len()),
    decreases s.len(),
{
    if s.len() == 0 {
    } else {
        assert(all_digits(s.drop_last())) by {
            assert(forall|i: int| 0 <= i < s.len() - 1 ==> s.drop_last()[i] == s[i]);
        }
        lemma_digits_val_bound(s.drop_last());
        assert(is_digit(s.last()));
    }
}

/// Whether the character is a decimal digit.
fn is_digit_char(c: char) -> (r: bool)
    ensures
        r == is_digit(c),
{
    (c as u32) >= 48 && (c as u32) <= 57
}

/// Parses a duration text: the whole seconds of a plain non-negative
/// JSON number, or nothing for any other text.
fn parse_secs(text: &String) -> (r: Option<u64>)
    ensures
        r == secs_of_text(text@),
{
    let s = text.as_str();
    let len: usize = s.unicode_len();
    let ghost sv: Seq<char> = s@;

    // Find the end of the leading digit run.
    let mut run: usize = 0;
    while run < len && is_digit_char(s.get_char(run))
        invariant
            sv == s@,
            len as nat == sv.len(),
            run <= len,
            digit_run(sv, 0) == digit_run(sv, run as int),
            forall|j: int| 0 <= j < run ==> is_digit(sv[j]),
        decreases len - run,
    {
        run = run + 1;
    }
    proof {
        assert(digit_run(sv, run as int) == run as int);
    }
    if run == 0 || run > 19 {
        return None;
    }

    // The remainder must be empty, or a dot followed by digits only.
    if run < len {
        let dot = s.get_char(run);
        if dot != '.' {
            return None;
        }
        if run + 1 >= len {
            return None;
        }
        let mut k: usize = run + 1;
        while k < len && is_digit_char(s.get_char(k))
            invariant
                sv == s@,
                len as nat == sv.len(),
                run + 1 <= k <= len,
                digit_run(sv, (run + 1) as int) == digit_run(sv, k as int),
            decreases len - k,
        {
            k = k + 1;
        }
        proof {
            assert(digit_run(sv, k as int) == k as int);
        }
        if k < len {
            return None;
        }
    }
    proof {
        assert(valid_secs_text(sv));
    }

    // The value of the integer part.
    let ghost intpart: Seq<char> = sv.subrange(0, run as int);
    proof {
        assert(all_digits(intpart));
        lemma_digits_val_bound(intpart);
        lemma_pow10_19();
    }
    let mut acc: u64 = 0;
    let mut i: usize = 0;
    while i < run
        invariant
            sv == s@,
            len as nat == sv.len(),
            run <= len,
            run <= 19,
            i <= run,
            intpart == sv.subrange(0, run as int),
            all_digits(intpart),
            acc as int == digits_val(sv.subrange(0, i as int)),
        decreases run - i,
    {
        let c = s.get_char(i);
        proof {
            assert(intpart[i as int] == sv[i as int]);
            assert(is_digit(intpart[i as int]));
            let pref = sv.subrange(0, i as int);
            let ext = sv.subrange(0, i as int + 1);
            assert(ext.drop_last() =~= pref);
            assert(all_digits(ext)) by {
                assert(forall|j: int| 0 <= j < ext.len() ==> ext[j] == intpart[j]);
            }
            lemma_digits_val_bound(ext);
            lemma_pow10_mono(ext.len(), 19);
            lemma_pow10_19();
        }
        let d: u64 = (c as u32 as u64) - 48;
        acc = acc * 10 + d;
        i = i + 1;
    }
    proof {
        assert(sv.subrange(0, run as int) == intpart);
    }
    Some(acc)
}

/// The value under a key in the binding list of a JSON object: the
/// first binding with that key. (The `serde_json` map holds each key
/// once, so first and last agree.)
pub open spec fn obj_get(entries: Seq<(String, JsonModel)>, key: Seq<char>) -> Option<JsonModel>
    decreases entries.len(),
{
    if entries.len() == 0 {
        None
    } else if entries[0].0@ == key {
        Some(entries[0].1)
    } else {
        obj_get(entries.drop_first(), key)
    }
}

/// A required boolean field.
pub open spec fn bool_field(entries: Seq<(String, JsonModel)>, key: Seq<char>) -> Option<bool> {
    match obj_get(entries, key) {
        Some(JsonModel::Bool(b)) => Some(b),
        _ => None,
    }
}

/// The volume field: a plain integer on the 0 to 100 scale.
pub open spec fn vol_field(entries: Seq<(String, JsonModel)>) -> Option<u8> {
    match obj_get(entries, "volume"@) {
        Some(JsonModel::UInt(u)) => if u <= 100 {
            Some(u as u8)
        } else {
            None
        },
        _ => None,
    }
}

/// The queue position field: any integer that fits a signed 64-bit
/// word.
pub open spec fn pos_field(entries: Seq<(String, JsonModel)>) -> Option<i64> {
    match obj_get(entries, "position"@) {
        Some(JsonModel::UInt(u)) => if u <= i64::MAX as u64 {
            Some(u as i64)
        } else {
            None
        },
        Some(JsonModel::Int(i)) => Some(i),
        _ => None,
    }
}

/// The phase field: a known phase name.
pub open spec fn state_field(entries: Seq<(String, JsonModel)>) -> Option<PlayerState> {
    match obj_get(entries, "state"@) {
        Some(JsonModel::Text(s)) => state_of_name(s@),
        _ => None,
    }
}

/// The whole seconds a duration value stands for: a non-negative
/// integer directly, any other plain number through its text with the
/// fraction truncated away.
pub open spec fn dur_value(j: JsonModel) -> Option<u64> {
    match j {
        JsonModel::UInt(u) => Some(u),
        JsonModel::NumText(t) => secs_of_text(t@),
        _ => None,
    }
}

/// The duration field of a queue entry.
pub open spec fn dur_field(entries: Seq<(String, JsonModel)>) -> Option<u64> {
    match obj_get(entries, "duration"@) {
        Some(j) => dur_value(j),
        None => None,
    }
}

/// A required string field.
pub open spec fn str_field(entries: Seq<(String, JsonModel)>, key: Seq<char>) -> Option<String> {
    match obj_get(entries, key) {
        Some(JsonModel::Text(s)) => Some(s),
        _ => None,
    }
}

/// An optional string field: absent or null stands for nothing, any
/// value other than a string is malformed.
pub open spec fn opt_str_field(entries: Seq<(String, JsonModel)>, key: Seq<char>) -> Option<
    Option<String>,
> {
    match obj_get(entries, key) {
        None => Some(None),
        Some(JsonModel::Null) => Some(None),
        Some(JsonModel::Text(s)) => Some(Some(s)),
        Some(_) => None,
    }
}

/// The queue entry a JSON value decodes to: an object whose identifier,
/// title, uploader, duration and track URL are present and well typed;
/// the uploader URL and the thumbnail may be absent or null.
pub open spec fn entry_spec(j: JsonModel) -> Option<QueueEntry> {
    match j {
        JsonModel::Obj(e) => match (
            str_field(e@, "id"@),
            str_field(e@, "title"@),
            str_field(e@, "uploader"@),
            dur_field(e@),
            str_field(e@, "webpage_url"@),
            opt_str_field(e@, "uploader_url"@),
            opt_str_field(e@, "thumbnail"@),
        ) {
            (
                Some(id),
                Some(title),
                Some(uploader),
                Some(duration),
                Some(webpage_url),
                Some(uploader_url),
                Some(thumbnail),
            ) => Some(
                (QueueEntry { id, title, uploader, duration, webpage_url, uploader_url, thumbnail }),
            ),
            _ => None,
        },
        _ => None,
    }
}

/// The queue a JSON array decodes to: every element decodes to an
/// entry, and no entry repeats an earlier entry's identifier.
pub open spec fn entries_spec(items: Seq<JsonModel>) -> Option<Seq<QueueEntry>>
    decreases items.len(),
{
    if items.len() == 0 {
        Some(Seq::empty())
    } else {
        match (entries_spec(items.drop_last()), entry_spec(items.last())) {
            (Some(q), Some(en)) => if forall|k: int| 0 <= k < q.len() ==> q[k].id@ != en.id@ {
                Some(q.push(en))
            } else {
                None
            },
            _ => None,
        }
    }
}

/// The queue field: an array of entries with pairwise-distinct
/// identifiers.
pub open spec fn queue_field(entries: Seq<(String, JsonModel)>) -> Option<Seq<QueueEntry>> {
    match obj_get(entries, "queue"@) {
        Some(JsonModel::Arr(items)) => entries_spec(items@),
        _ => None,
    }
}

/// The current-track field: absent or null stands for no current track.
pub open spec fn current_field(entries: Seq<(String, JsonModel)>) -> Option<Option<QueueEntry>> {
    match obj_get(entries, "current"@) {
        None => Some(None),
        Some(JsonModel::Null) => Some(None),
        Some(j) => match entry_spec(j) {
            Some(en) => Some(Some(en)),
            None => None,
        },
    }
}

/// The snapshot a broadcast tree decodes to: a JSON object whose
/// required fields are present and well typed, whose phase name is
/// known, whose volume is on the scale, and whose queue repeats no
/// identifier. Anything else is malformed and decodes to nothing.
pub open spec fn snapshot_spec(j: JsonModel) -> Option<PlayerModelView> {
    match j {
        JsonModel::Obj(e) => match (
            bool_field(e@, "loop"@),
            vol_field(e@),
            pos_field(e@),
            state_field(e@),
            queue_field(e@),
            current_field(e@),
        ) {
            (
                Some(loop_enabled),
                Some(volume),
                Some(position),
                Some(state),
                Some(queue),
                Some(current),
            ) => Some(
                (PlayerModelView { loop_enabled, volume, position, state, queue, current }),
            ),
            _ => None,
        },
        _ => None,
    }
}

/// The snapshot a broadcast text decodes to.
pub open spec fn snapshot_of_text(s: Seq<char>) -> Option<PlayerModelView> {
    match json_of(s) {
        Some(j) => snapshot_spec(j),
        None => None,
    }
}

/// Once a prefix of the array fails to decode, the whole array does.
proof fn lemma_entries_spec_none(items: Seq<JsonModel>, k: int)
    requires
        0 <= k <= items.len(),
        entries_spec(items.subrange(0, k)) is None,
    ensures
        entries_spec(items) is None,
    decreases items.len() - k,
{
    if k < items.len() {
        assert(items.subrange(0, k + 1).drop_last() =~= items.subrange(0, k));
        lemma_entries_spec_none(items, k + 1);
    } else {
        assert(items.subrange(0, k) =~= items);
    }
}

/// A decoded queue carries pairwise-distinct identifiers.
proof fn lemma_entries_spec_unique(items: Seq<JsonModel>)
    ensures
        entries_spec(items) matches Some(q) ==> unique_ids(q),
    decreases items.len(),
{
    if items.len() > 0 {
        lemma_entries_spec_unique(items.drop_last());
        match (entries_spec(items.drop_last()), entry_spec(items.last())) {
            (Some(q0), Some(en)) => {
                if forall|k: int| 0 <= k < q0.len() ==> q0[k].id@ != en.id@ {
                    let q = q0.push(en);
                    assert forall|i: int, j: int|
                        0 <= i < j < q.len() implies q[i].id@ != q[j].id@ by {
                        if j < q.len() - 1 {
                            assert(q[i] == q0[i] && q[j] == q0[j]);
                        } else {
                            assert(q[j] == en && q[i] == q0[i]);
                        }
                    }
                }
            },
            _ => {},
        }
    }
}

/// Looks the key up in the binding list of a decoded object.
fn get_field<'a>(entries: &'a Vec<(String, JsonModel)>, key: &str) -> (r: Option<&'a JsonModel>)
    ensures
        match r {
            Some(v) => obj_get(entries@, key@) == Some(*v),
            None => obj_get(entries@, key@) is None,
        },
{
    let k = String::from_str(key);
    let n = entries.len();
    let mut i: usize = 0;
    proof {
        assert(entries@.skip(0) =~= entries@);
    }
    while i < n
        invariant
            n == entries@.len(),
            i <= n,
            k@ == key@,
            obj_get(entries@, key@) == obj_get(entries@.skip(i as int), key@),
        decreases n - i,
    {
        proof {
            assert(entries@.skip(i as int)[0] == entries@[i as int]);
            assert(entries@.skip(i as int).drop_first() =~= entries@.skip(i as int + 1));
        }
        if entries[i].0.eq(&k) {
            return Some(&entries[i].1);
        }
        i = i + 1;
    }
    None
}

/// Reads a required boolean field.
fn field_bool(entries: &Vec<(String, JsonModel)>, key: &str) -> (r: Option<bool>)
    ensures
        r == bool_field(entries@, key@),
{
    match get_field(entries, key) {
        Some(JsonModel::Bool(b)) => Some(*b),
        _ => None,
    }
}

/// Reads the volume field, holding it to its scale.
fn field_volume(entries: &Vec<(String, JsonModel)>) -> (r: Option<u8>)
    ensures
        r == vol_field(entries@),
{
    match get_field(entries, "volume") {
        Some(JsonModel::UInt(u)) => if *u <= 100 {
            Some(*u as u8)
        } else {
            None
        },
        _ => None,
    }
}

/// Reads the queue position field.
fn field_position(entries: &Vec<(String, JsonModel)>) -> (r: Option<i64>)
    ensures
        r == pos_field(entries@),
{
    match get_field(entries, "position") {
        Some(JsonModel::UInt(u)) => if *u <= 9223372036854775807u64 {
            Some(*u as i64)
        } else {
            None
        },
        Some(JsonModel::Int(i)) => Some(*i),
        _ => None,
    }
}

/// Reads the phase field.
fn field_state(entries: &Vec<(String, JsonModel)>) -> (r: Option<PlayerState>)
    ensures
        r == state_field(entries@),
{
    match get_field(entries, "state") {
        Some(JsonModel::Text(s)) => parse_state(s),
        _ => None,
    }
}

/// Reads a required string field.
fn field_string(entries: &Vec<(String, JsonModel)>, key: &str) -> (r: Option<String>)
    ensures
        r == str_field(entries@, key@),
{
    match get_field(entries, key) {
        Some(JsonModel::Text(s)) => Some(s.clone()),
        _ => None,
    }
}

/// Reads the duration field of a queue entry.
fn field_duration(entries: &Vec<(String, JsonModel)>) -> (r: Option<u64>)
    ensures
        r == dur_field(entries@),
{
    match get_field(entries, "duration") {
        Some(JsonModel::UInt(u)) => Some(*u),
        Some(JsonModel::NumText(t)) => parse_secs(t),
        _ => None,
    }
}

/// Reads an optional string field.
fn field_opt_string(entries: &Vec<(String, JsonModel)>, key: &str) -> (r: Option<Option<String>>)
    ensures
        r == opt_str_field(entries@, key@),
{
    match get_field(entries, key) {
        None => Some(None),
        Some(JsonModel::Null) => Some(None),
        Some(JsonModel::Text(s)) => Some(Some(s.clone())),
        Some(_) => None,
    }
}

/// Decodes one queue entry.
fn decode_entry(j: &JsonModel) -> (r: Option<QueueEntry>)
    ensures
        r == entry_spec(*j),
{
    let entries = match j {
        JsonModel::Obj(e) => e,
        _ => {
            return None;
        },
    };
    let id = match field_string(entries, "id") {
        Some(s) => s,
        None => {
            return None;
        },
    };
    let title = match field_string(entries, "title") {
        Some(s) => s,
        None => {
            return None;
        },
    };
    let uploader = match field_string(entries, "uploader") {
        Some(s) => s,
        None => {
            return None;
        },
    };
    let duration = match field_duration(entries) {
        Some(d) => d,
        None => {
            return None;
        },
    };
    let webpage_url = match field_string(entries, "webpage_url") {
        Some(s) => s,
        None => {
            return None;
        },
    };
    let uploader_url = match field_opt_string(entries, "uploader_url") {
        Some(o) => o,
        None => {
            return None;
        },
    };
    let thumbnail = match field_opt_string(entries, "thumbnail") {
        Some(o) => o,
        None => {
            return None;
        },
    };
    Some(QueueEntry { id, title, uploader, duration, webpage_url, uploader_url, thumbnail })
}

/// Decodes the queue array, rejecting a repeated identifier.
fn decode_entries(items: &Vec<JsonModel>) -> (r: Option<Vec<QueueEntry>>)
    ensures
        match r {
            Some(q) => entries_spec(items@) == Some(q@) && unique_ids(q@),
            None => entries_spec(items@) is None,
        },
{
    let mut queue: Vec<QueueEntry> = Vec::new();
    let n = items.len();
    let mut i: usize = 0;
    proof {
        assert(items@.subrange(0, 0) =~= Seq::<JsonModel>::empty());
    }
    while i < n
        invariant
            n == items@.len(),
            i <= n,
            entries_spec(items@.subrange(0, i as int)) == Some(queue@),
        decreases n - i,
    {
        let en = match decode_entry(&items[i]) {
            Some(en) => en,
            None => {
                proof {
                    assert(items@.subrange(0, i as int + 1).drop_last() =~= items@.subrange(
                        0,
                        i as int,
                    ));
                    assert(items@.subrange(0, i as int + 1).last() == items@[i as int]);
                    lemma_entries_spec_none(items@, i as int + 1);
                }
                return None;
            },
        };
        let m = queue.len();
        let mut dup: usize = 0;
        while dup < m
            invariant
                m == queue@.len(),
                dup <= m,
                forall|t: int| 0 <= t < dup ==> queue@[t].id@ != en.id@,
                n == items@.len(),
                i < n,
                entries_spec(items@.subrange(0, i as int)) == Some(queue@),
                entry_spec(items@[i as int]) == Some(en),
            decreases m - dup,
        {
            if queue[dup].id.eq(&en.id) {
                proof {
                    assert(queue@[dup as int].id@ == en.id@);
                    assert(!(forall|t: int| 0 <= t < queue@.len() ==> queue@[t].id@ != en.id@));
                    assert(items@.subrange(0, i as int + 1).drop_last() =~= items@.subrange(
                        0,
                        i as int,
                    ));
                    assert(items@.subrange(0, i as int + 1).last() == items@[i as int]);
                    lemma_entries_spec_none(items@, i as int + 1);
                }
                return None;
            }
            dup = dup + 1;
        }
        proof {
            assert(items@.subrange(0, i as int + 1).drop_last() =~= items@.subrange(0, i as int));
            assert(items@.subrange(0, i as int + 1).last() == items@[i as int]);
        }
        queue.push(en);
        i = i + 1;
    }
    proof {
        assert(items@.subrange(0, n as int) =~= items@);
        lemma_entries_spec_unique(items@);
    }
    Some(queue)
}

impl PlayerModel {
    /// Decodes a state broadcast: exactly the snapshot named by
    /// [`snapshot_of_text`]. A broadcast that is not valid JSON, misses
    /// a required field, names an unknown phase, carries a volume
    /// beyond the scale, or repeats a queue identifier is rejected as a
    /// whole, and the result then carries nothing.
    pub fn decode(body: &str) -> (r: Option<PlayerModel>)
        ensures
            (r is Some) == (snapshot_of_text(body@) is Some),
            r matches Some(m) ==> Some(m@) == snapshot_of_text(body@) && m.wf(),
    {
        let tree = match parse_json_model(body) {
            Some(t) => t,
            None => {
                return None;
            },
        };
        let entries = match &tree {
            JsonModel::Obj(e) => e,
            _ => {
                return None;
            },
        };
        let loop_enabled = match field_bool(entries, "loop") {
            Some(b) => b,
            None => {
                return None;
            },
        };
        let volume = match field_volume(entries) {
            Some(v) => v,
            None => {
                return None;
            },
        };
        let position = match field_position(entries) {
            Some(p) => p,
            None => {
                return None;
            },
        };
        let state = match field_state(entries) {
            Some(s) => s,
            None => {
                return None;
            },
        };
        let queue = match get_field(entries, "queue") {
            Some(JsonModel::Arr(items)) => match decode_entries(items) {
                Some(q) => q,
                None => {
                    return None;
                },
            },
            _ => {
                return None;
            },
        };
        let current = match get_field(entries, "current") {
            None => None,
            Some(JsonModel::Null) => None,
            Some(other) => match decode_entry(other) {
                Some(en) => Some(en),
                None => {
                    return None;
                },
            },
        };
        let m = PlayerModel { loop_enabled, volume, position, state, queue, current };
        proof {
            assert(Some(m@) == snapshot_of_text(body@));
        }
        Some(m)
    }
}

} // verus!
