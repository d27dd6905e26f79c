//! The table of clocks: one row per voice-channel or standing-message clock.
use vstd::prelude::*;

use crate::template::MAX_TEMPLATE_CHARS;
use crate::zone::{is_known_zone, Timezone};

verus! {

/// What a clock row holds, as plain values.
pub struct ClockRow {
    pub channel_id: u64,
    pub message_id: Option<u64>,
    pub guild_id: u64,
    pub timezone: Seq<char>,
    pub name_template: Seq<char>,
}

/// A name template may be stored when it is non-empty and at most 64
/// characters long.
pub open spec fn storable_template(t: Seq<char>) -> bool {
    0 < t.len() <= MAX_TEMPLATE_CHARS
}

/// Why a clock record could not be built.
#[derive(Clone, Copy, Debug, PartialEq, Eq, Structural)]
pub enum RecordError {
    /// The name template is empty or longer than 64 characters.
    BadTemplate,
}

/// A clock: an external channel (and, for a standing-message clock, a
/// message in it) paired with a checked timezone and a name template.
#[derive(Debug)]
pub struct ClockRecord {
    channel_id: u64,
    message_id: Option<u64>,
    guild_id: u64,
    timezone: Timezone,
    name_template: String,
}

impl View for ClockRecord {
    type V = ClockRow;

    closed spec fn view(&self) -> ClockRow {
        ClockRow {
            channel_id: self.channel_id,
            message_id: self.message_id,
            guild_id: self.guild_id,
            timezone: self.timezone@,
            name_template: self.name_template@,
        }
    }
}

impl ClockRecord {
    #[verifier::type_invariant]
    spec fn well_formed(&self) -> bool {
        storable_template(self.name_template@)
    }

    /// Builds a record; the template must be storable.
    pub fn new(
        channel_id: u64,
        message_id: Option<u64>,
        guild_id: u64,
        timezone: Timezone,
        name_template: String,
    ) -> (r: Result<ClockRecord, RecordError>)
        ensures
            r is Ok <==> storable_template(name_template@),
            r matches Ok(rec) ==> rec@ == (ClockRow {
                channel_id,
                message_id,
                guild_id,
                timezone: timezone@,
                name_template: name_template@,
            }),
            r matches Err(e) ==> e == RecordError::BadTemplate,
    {
        let n = name_template.as_str().unicode_len();
        if n == 0 || n > MAX_TEMPLATE_CHARS {
            Err(RecordError::BadTemplate)
        } else {
            Ok(ClockRecord { channel_id, message_id, guild_id, timezone, name_template })
        }
    }

    /// The channel of the clock.
    pub fn channel_id(&self) -> (r: u64)
        ensures
            r == self@.channel_id,
    {
        self.channel_id
    }

    /// The standing message, for a message clock.
    pub fn message_id(&self) -> (r: Option<u64>)
        ensures
            r == self@.message_id,
    {
        self.message_id
    }

    /// The group that owns the clock.
    pub fn guild_id(&self) -> (r: u64)
        ensures
            r == self@.guild_id,
    {
        self.guild_id
    }

    /// The clock's timezone.
    pub fn timezone(&self) -> (r: &Timezone)
        ensures
            r@ == self@.timezone,
            is_known_zone(self@.timezone),
    {
        // The zone's name comes with the fact that the database knows it.
        let _ = self.timezone.name();
        &self.timezone
    }

    /// The template the clock is rendered with.
    pub fn name_template(&self) -> (r: &str)
        ensures
            r@ == self@.name_template,
            storable_template(self@.name_template),
    {
        proof {
            use_type_invariant(self);
        }
        self.name_template.as_str()
    }
}

/// Which rows a deletion removes.
#[derive(Clone, Copy, Debug, PartialEq, Eq, Structural)]
pub enum Selector {
    /// Every row of this channel.
    Channel(u64),
    /// Rows of this group whose channel or message has this identifier.
    Resource { id: u64, guild_id: u64 },
}

/// Whether the row `r` is one that `sel` removes.
pub open spec fn selects(sel: Selector, r: ClockRow) -> bool {
    match sel {
        Selector::Channel(c) => r.channel_id == c,
        Selector::Resource { id, guild_id } => r.guild_id == guild_id && (r.channel_id == id
            || r.message_id == Some(id)),
    }
}

impl Selector {
    /// Whether `rec` is a row this selector removes.
    pub fn matches(&self, rec: &ClockRecord) -> (r: bool)
        ensures
            r == selects(*self, rec@),
    {
        match *self {
            Selector::Channel(c) => rec.channel_id() == c,
            Selector::Resource { id, guild_id } => rec.guild_id() == guild_id && (rec.channel_id()
                == id || rec.message_id() == Some(id)),
        }
    }
}

/// The rows of `s` that `sel` leaves, in their order.
pub open spec fn kept(s: Seq<ClockRow>, sel: Selector) -> Seq<ClockRow>
    decreases s.len(),
{
    if s.len() == 0 {
        s
    } else {
        let rest = kept(s.drop_last(), sel);
        if selects(sel, s.last()) {
            rest
        } else {
            rest.push(s.last())
        }
    }
}

/// How many rows of `s` satisfy `sel`.
pub open spec fn count_selected(s: Seq<ClockRow>, sel: Selector) -> nat
    decreases s.len(),
{
    if s.len() == 0 {
        0
    } else {
        count_selected(s.drop_last(), sel) + if selects(sel, s.last()) {
            1nat
        } else {
            0nat
        }
    }
}

/// How many rows of `s` belong to the group `guild_id`.
pub open spec fn guild_count(s: Seq<ClockRow>, guild_id: u64) -> nat
    decreases s.len(),
{
    if s.len() == 0 {
        0
    } else {
        guild_count(s.drop_last(), guild_id) + if s.last().guild_id == guild_id {
            1nat
        } else {
            0nat
        }
    }
}

/// The row views of a list of records.
pub open spec fn rows_of(v: Seq<ClockRecord>) -> Seq<ClockRow> {
    v.map_values(|r: ClockRecord| r@)
}

/// Counting never exceeds the length.
pub proof fn lemma_count_selected_le(s: Seq<ClockRow>, sel: Selector)
    ensures
        count_selected(s, sel) <= s.len(),
        kept(s, sel).len() + count_selected(s, sel) == s.len(),
    decreases s.len(),
{
    if s.len() > 0 {
        lemma_count_selected_le(s.drop_last(), sel);
    }
}

/// A group's count never exceeds the length.
pub proof fn lemma_guild_count_le(s: Seq<ClockRow>, guild_id: u64)
    ensures
        guild_count(s, guild_id) <= s.len(),
    decreases s.len(),
{
    if s.len() > 0 {
        lemma_guild_count_le(s.drop_last(), guild_id);
    }
}

/// A deletion leaves no selected row and every row it does not select, and
/// reports as many rows as it removed; where no row is selected it changes
/// nothing and reports zero.
pub proof fn lemma_deletion(s: Seq<ClockRow>, sel: Selector)
    ensures
        forall|i: int| 0 <= i < kept(s, sel).len() ==> !selects(sel, #[trigger] kept(s, sel)[i]),
        forall|r: ClockRow| s.contains(r) && !selects(sel, r) ==> #[trigger] kept(s, sel).contains(r),
        forall|r: ClockRow| #[trigger] kept(s, sel).contains(r) ==> s.contains(r),
        count_selected(s, sel) == s.len() - kept(s, sel).len(),
        (forall|i: int| 0 <= i < s.len() ==> !selects(sel, #[trigger] s[i])) ==> kept(s, sel) == s
            && count_selected(s, sel) == 0,
    decreases s.len(),
{
    lemma_count_selected_le(s, sel);
    if s.len() > 0 {
        let p = s.drop_last();
        lemma_deletion(p, sel);
        assert(s == p.push(s.last()));
        assert forall|r: ClockRow| s.contains(r) && !selects(sel, r) implies #[trigger] kept(
            s,
            sel,
        ).contains(r) by {
            let i = choose|i: int| 0 <= i < s.len() && s[i] == r;
            if i < s.len() - 1 {
                assert(p[i] == r);
                assert(p.contains(r));
                assert(kept(p, sel).contains(r));
                let k = choose|k: int| 0 <= k < kept(p, sel).len() && kept(p, sel)[k] == r;
                if !selects(sel, s.last()) {
                    assert(kept(s, sel)[k] == r);
                }
            } else {
                assert(kept(s, sel)[kept(s, sel).len() - 1] == r);
            }
        }
        assert forall|r: ClockRow| #[trigger] kept(s, sel).contains(r) implies s.contains(r) by {
            let k = choose|k: int| 0 <= k < kept(s, sel).len() && kept(s, sel)[k] == r;
            if k < kept(p, sel).len() {
                assert(kept(p, sel)[k] == r);
                assert(kept(p, sel).contains(r));
                assert(p.contains(r));
                let i = choose|i: int| 0 <= i < p.len() && p[i] == r;
                assert(s[i] == r);
            } else {
                assert(s[s.len() - 1] == r);
            }
        }
        if forall|i: int| 0 <= i < s.len() ==> !selects(sel, #[trigger] s[i]) {
            assert forall|i: int| 0 <= i < p.len() implies !selects(sel, #[trigger] p[i]) by {
                assert(p[i] == s[i]);
            }
            assert(!selects(sel, s[s.len() - 1]));
        }
    }
}

/// The persisted table of clocks.
#[derive(Debug)]
pub struct ClockRegistry {
    rows: Vec<ClockRecord>,
}

impl View for ClockRegistry {
    type V = Seq<ClockRow>;

    closed spec fn view(&self) -> Seq<ClockRow> {
        rows_of(self.rows@)
    }
}

impl ClockRegistry {
    /// An empty table.
    pub fn new() -> (r: ClockRegistry)
        ensures
            r@ == Seq::<ClockRow>::empty(),
    {
        let r = ClockRegistry { rows: Vec::new() };
        assert(r@ =~= Seq::<ClockRow>::empty());
        r
    }

    /// The number of rows.
    pub fn len(&self) -> (r: usize)
        ensures
            r == self@.len(),
    {
        self.rows.len()
    }

    /// The row at `i`.
    pub fn get(&self, i: usize) -> (r: &ClockRecord)
        requires
            i < self@.len(),
        ensures
            r@ == self@[i as int],
    {
        &self.rows[i]
    }

    /// The number of clocks of the group `guild_id`.
    pub fn count_by_guild(&self, guild_id: u64) -> (r: usize)
        ensures
            r == guild_count(self@, guild_id),
    {
        let mut count: usize = 0;
        let mut i: usize = 0;
        while i < self.rows.len()
            invariant
                i <= self@.len(),
                self@.len() == self.rows@.len(),
                count == guild_count(self@.subrange(0, i as int), guild_id),
            decreases self.rows@.len() - i,
        {
            proof {
                lemma_guild_count_le(self@.subrange(0, i as int), guild_id);
                assert(self@.subrange(0, i + 1).drop_last() == self@.subrange(0, i as int));
            }
            if self.rows[i].guild_id() == guild_id {
                count = count + 1;
            }
            i = i + 1;
        }
        assert(self@.subrange(0, i as int) == self@);
        count
    }

    /// Adds a row at the end of the table.
    pub fn insert(&mut self, record: ClockRecord)
        ensures
            final(self)@ == old(self)@.push(record@),
    {
        self.rows.push(record);
        assert(rows_of(self.rows@) =~= rows_of(old(self).rows@).push(record@));
    }

    /// Removes every row that `sel` selects and returns how many there were.
    fn remove_selected(&mut self, sel: Selector) -> (r: usize)
        ensures
            final(self)@ == kept(old(self)@, sel),
            r == count_selected(old(self)@, sel),
    {
        let ghost start = self@;
        let ghost mut j: int = 0;
        let mut removed: usize = 0;
        let mut i: usize = 0;
        let total = self.rows.len();
        while i < self.rows.len()
            invariant
                start.len() == total,
                0 <= j <= start.len(),
                i <= self@.len(),
                self@.len() == self.rows@.len(),
                self@.len() - i == start.len() - j,
                self@.subrange(0, i as int) == kept(start.subrange(0, j), sel),
                self@.subrange(i as int, self@.len() as int) == start.subrange(j, start.len() as int),
                removed == count_selected(start.subrange(0, j), sel),
            decreases self.rows@.len() - i,
        {
            proof {
                lemma_count_selected_le(start.subrange(0, j), sel);
                assert(start.subrange(0, j + 1).drop_last() == start.subrange(0, j));
                assert(self@[i as int] == self@.subrange(i as int, self@.len() as int)[0]);
                assert(start[j] == start.subrange(j, start.len() as int)[0]);
                assert(start.subrange(0, j + 1).last() == start[j]);
            }
            let ghost before = self@;
            let ghost i0 = i as int;
            let ghost j0 = j;
            assert forall|k: int| 0 <= k < before.len() - i - 1 implies #[trigger] before[i + 1 + k] == start[j + 1 + k] by {
                assert(before[i + 1 + k] == before.subrange(i as int, before.len() as int)[k + 1]);
                assert(start[j + 1 + k] == start.subrange(j, start.len() as int)[k + 1]);
            }
            if sel.matches(&self.rows[i]) {
                self.rows.remove(i);
                removed = removed + 1;
                assert(self@ =~= before.remove(i as int));
                assert(self@.subrange(0, i as int) =~= before.subrange(0, i as int));
                assert(self@.subrange(i as int, self@.len() as int) =~= before.subrange(
                    i + 1,
                    before.len() as int,
                ));
            } else {
                i = i + 1;
                assert(self@.subrange(0, i as int) =~= before.subrange(0, i - 1).push(before[i - 1]));
            }
            proof {
                j = j + 1;
            }
            assert forall|k: int| 0 <= k < self@.len() - i implies #[trigger] self@.subrange(
                i as int,
                self@.len() as int,
            )[k] == start.subrange(j, start.len() as int)[k] by {
                assert(before[i0 + 1 + k] == start[j0 + 1 + k]);
            }
            assert(self@.subrange(i as int, self@.len() as int) =~= start.subrange(j, start.len() as int));
        }
        assert(self@.subrange(0, i as int) == self@);
        assert(start.subrange(0, j) == start);
        removed
    }

    /// Removes every clock of the channel `channel_id` and returns how many
    /// rows went; a channel without clocks leaves the table as it was.
    pub fn delete_by_channel(&mut self, channel_id: u64) -> (r: usize)
        ensures
            final(self)@ == kept(old(self)@, Selector::Channel(channel_id)),
            r == count_selected(old(self)@, Selector::Channel(channel_id)),
    {
        self.remove_selected(Selector::Channel(channel_id))
    }

    /// Removes the clocks of the group `guild_id` whose channel or message is
    /// `resource_id`, and tells whether there were any.
    pub fn delete_by_explicit_request(&mut self, resource_id: u64, guild_id: u64) -> (r: bool)
        ensures
            final(self)@ == kept(old(self)@, Selector::Resource { id: resource_id, guild_id }),
            r == (count_selected(old(self)@, Selector::Resource { id: resource_id, guild_id })
                > 0),
    {
        let n = self.remove_selected(Selector::Resource { id: resource_id, guild_id });
        n > 0
    }
}

} // verus!
