use vstd::prelude::*;
use crate::decimal::{decimal, law_decimal_round_trip, parsed_usize, push_decimal};
use crate::text::{join, joined, labelled, texts};

verus! {

/// An sRGBA colour with premultiplied alpha, as the UI paints it.
#[derive(Clone, Copy, Debug, PartialEq, Eq, Structural)]
pub struct Color {
    pub r: u8,
    pub g: u8,
    pub b: u8,
    pub a: u8,
}

/// What a relay is used for is a set of bits in its `usage_bits`.
pub const READ: u64 = 1;
/// Where events are written to.
pub const WRITE: u64 = 2;
/// Where the relay list is advertised.
pub const ADVERTISE: u64 = 4;
/// Where others are told to write to us.
pub const INBOX: u64 = 8;
/// Where others are told we write.
pub const OUTBOX: u64 = 16;
/// Where other people's relay lists are looked up.
pub const DISCOVER: u64 = 32;

/// The stored facts about a relay that its entry shows.
#[derive(Clone, Debug)]
pub struct DbRelay {
    pub url: String,
    pub success_count: u64,
    pub failure_count: u64,
    pub last_connected_at: Option<u64>,
    pub last_general_eose_at: Option<u64>,
    pub usage_bits: u64,
}

/// Every bit of `bits` is set in `usage`.
pub open spec fn has_bits(usage: u64, bits: u64) -> bool {
    usage & bits == bits
}

impl DbRelay {
    /// Whether every bit of `bits` is set in the relay's usage.
    pub fn has_usage_bits(&self, bits: u64) -> (r: bool)
        ensures
            r == has_bits(self.usage_bits, bits),
    {
        self.usage_bits & bits == bits
    }
}

/// The usage labels of a relay, in the order the entry lists them: how it
/// is read from (publicly when it is also an inbox), how it is written to
/// (publicly when it is also an outbox), then advertising and discovery.
pub open spec fn usage_labels(usage: u64) -> Seq<Seq<char>> {
    let read = if has_bits(usage, READ | INBOX) {
        seq!["public read"@]
    } else if has_bits(usage, READ) {
        seq!["private read"@]
    } else {
        Seq::empty()
    };
    let write = if has_bits(usage, WRITE | OUTBOX) {
        seq!["public write"@]
    } else if has_bits(usage, WRITE) {
        seq!["private write"@]
    } else {
        Seq::empty()
    };
    let advertise = if has_bits(usage, ADVERTISE) {
        seq!["advertise"@]
    } else {
        Seq::empty()
    };
    let discover = if has_bits(usage, DISCOVER) {
        seq!["discover"@]
    } else {
        Seq::empty()
    };
    read + write + advertise + discover
}

/// The line that sums up what a relay is used for.
pub open spec fn usage_summary_text(usage: u64) -> Seq<char> {
    joined(usage_labels(usage), ", "@)
}

proof fn lemma_joined_last(parts: Seq<Seq<char>>, sep: Seq<char>)
    requires
        parts.len() > 0,
        parts.last().len() > 0,
    ensures
        joined(parts, sep).len() > 0,
        joined(parts, sep).last() == parts.last().last(),
{
    if parts.len() > 1 {
        let j = joined(parts, sep);
        assert(j == joined(parts.drop_last(), sep) + sep + parts.last());
    }
}

/// The usage summary is well formed: it never ends in a dangling ", "
/// separator (so trimming one off changes nothing), and it is empty exactly
/// when the relay is used neither for reading, writing, advertising nor
/// discovery.
pub proof fn law_usage_summary_well_formed(usage: u64)
    ensures
        ({
            let s = usage_summary_text(usage);
            &&& s.len() >= 2 ==> s.subrange(s.len() - 2, s.len() as int) != ", "@
            &&& (s.len() == 0 <==> !(has_bits(usage, READ) || has_bits(usage, WRITE)
                || has_bits(usage, ADVERTISE) || has_bits(usage, DISCOVER)))
        }),
{
    reveal_strlit("public read");
    reveal_strlit("private read");
    reveal_strlit("public write");
    reveal_strlit("private write");
    reveal_strlit("advertise");
    reveal_strlit("discover");
    reveal_strlit(", ");
    assert(usage & (1u64 | 8u64) == (1u64 | 8u64) ==> usage & 1u64 == 1u64) by (bit_vector);
    assert(usage & (2u64 | 16u64) == (2u64 | 16u64) ==> usage & 2u64 == 2u64) by (bit_vector);
    let labels = usage_labels(usage);
    let s = usage_summary_text(usage);
    assert forall|i: int| 0 <= i < labels.len() implies #[trigger] labels[i].len() > 0
        && labels[i].last() != ' ' by {}
    if labels.len() > 0 {
        lemma_joined_last(labels, ", "@);
        if s.len() >= 2 {
            let tail = s.subrange(s.len() - 2, s.len() as int);
            assert(tail[1] == s.last());
            assert(", "@[1] == ' ');
        }
    } else {
        assert(s =~= Seq::<char>::empty());
    }
}

/// Each usage label appears exactly when its bits are set: a relay read
/// from is "public read" when it is also an inbox and "private read" when it
/// is not; a relay written to is "public write" when it is also an outbox and
/// "private write" when it is not; "advertise" and "discover" follow their own
/// bits. The read label, when there is one, comes first.
pub proof fn law_usage_labels_follow_bits(usage: u64)
    ensures
        ({
            let l = usage_labels(usage);
            &&& l.contains("public read"@) <==> (has_bits(usage, READ) && has_bits(usage, INBOX))
            &&& l.contains("private read"@) <==> (has_bits(usage, READ) && !has_bits(usage, INBOX))
            &&& l.contains("public write"@) <==> (has_bits(usage, WRITE) && has_bits(usage, OUTBOX))
            &&& l.contains("private write"@) <==> (has_bits(usage, WRITE) && !has_bits(
                usage,
                OUTBOX,
            ))
            &&& l.contains("advertise"@) <==> has_bits(usage, ADVERTISE)
            &&& l.contains("discover"@) <==> has_bits(usage, DISCOVER)
            &&& has_bits(usage, READ) && has_bits(usage, INBOX) ==> l[0] == "public read"@
            &&& has_bits(usage, READ) && !has_bits(usage, INBOX) ==> l[0] == "private read"@
        }),
{
    reveal_strlit("public read");
    reveal_strlit("private read");
    reveal_strlit("public write");
    reveal_strlit("private write");
    reveal_strlit("advertise");
    reveal_strlit("discover");
    assert((usage & (1u64 | 8u64) == (1u64 | 8u64)) <==> (usage & 1u64 == 1u64 && usage & 8u64
        == 8u64)) by (bit_vector);
    assert((usage & (2u64 | 16u64) == (2u64 | 16u64)) <==> (usage & 2u64 == 2u64 && usage & 16u64
        == 16u64)) by (bit_vector);
    let l = usage_labels(usage);
    let pr = "public read"@;
    let vr = "private read"@;
    let pw = "public write"@;
    let vw = "private write"@;
    let ad = "advertise"@;
    let di = "discover"@;
    // The six labels differ from one another: by length, or else by their
    // second character.
    assert(pr[1] != vr[1] && vr[1] != pw[1]);
    assert(pr.len() == 11 && vr.len() == 12 && pw.len() == 12 && vw.len() == 13);
    assert(ad.len() == 9 && di.len() == 8);
    assert(pr != vr && vr != pw);
    assert forall|x: Seq<char>| l.contains(x) implies x == pr || x == vr || x == pw || x == vw
        || x == ad || x == di by {
        let i = choose|i: int| 0 <= i < l.len() && l[i] == x;
    }
    if has_bits(usage, READ) && has_bits(usage, INBOX) {
        assert(l[0] == pr);
    }
    if has_bits(usage, READ) && !has_bits(usage, INBOX) {
        assert(l[0] == vr);
    }
    let read = if has_bits(usage, READ | INBOX) {
        seq![pr]
    } else if has_bits(usage, READ) {
        seq![vr]
    } else {
        Seq::<Seq<char>>::empty()
    };
    let write = if has_bits(usage, WRITE | OUTBOX) {
        seq![pw]
    } else if has_bits(usage, WRITE) {
        seq![vw]
    } else {
        Seq::<Seq<char>>::empty()
    };
    let advertise = if has_bits(usage, ADVERTISE) {
        seq![ad]
    } else {
        Seq::<Seq<char>>::empty()
    };
    let discover = if has_bits(usage, DISCOVER) {
        seq![di]
    } else {
        Seq::<Seq<char>>::empty()
    };
    assert(l == read + write + advertise + discover);
    let k1 = read.len() as int;
    let k2 = k1 + write.len();
    let k3 = k2 + advertise.len();
    assert(forall|i: int| 0 <= i < k1 ==> l[i] == read[i]);
    assert(forall|i: int| k1 <= i < k2 ==> l[i] == write[i - k1]);
    assert(forall|i: int| k2 <= i < k3 ==> l[i] == advertise[i - k2]);
    assert(forall|i: int| k3 <= i < l.len() ==> l[i] == discover[i - k3]);
    if read.len() > 0 {
        assert(l[0] == read[0]);
    }
    if write.len() > 0 {
        assert(l[k1] == write[0]);
    }
    if advertise.len() > 0 {
        assert(l[k2] == advertise[0]);
    }
    if discover.len() > 0 {
        assert(l[k3] == discover[0]);
    }
}

/// The "Following" text spells the whole count: after the "Following: "
/// prefix comes text that reads back as exactly that count; without a count
/// the text is "Following: ---".
pub proof fn law_following_text_spells_count(count: Option<usize>)
    ensures
        match count {
            Some(n) => {
                let t = following_text(count);
                &&& t.len() > 11
                &&& t.subrange(0, 11) == "Following: "@
                &&& parsed_usize(t.subrange(11, t.len() as int)) == Some(n)
            },
            None => following_text(count) == "Following: ---"@,
        },
{
    reveal_strlit("Following: ");
    if let Some(n) = count {
        law_decimal_round_trip(n);
        let t = following_text(count);
        let d = decimal(n as nat);
        assert(d.len() > 0) by {
            assert(parsed_usize(d) is Some);
        }
        assert(t.subrange(0, 11) =~= "Following: "@);
        assert(t.subrange(11, t.len() as int) =~= d);
    }
}

/// Which of the two views an entry shows.
#[derive(Clone, Copy, Debug, PartialEq, Eq, Structural)]
pub enum RelayEntryView {
    List,
    Edit,
}

/// A colour, given outright or taken from the current theme.
#[derive(Clone, Copy, Debug, PartialEq, Eq, Structural)]
pub enum Paint {
    Custom(Color),
    /// The theme's text colour.
    Text,
    /// The theme's weak text colour.
    WeakText,
    /// The foreground of inactive widgets.
    InactiveForeground,
    /// The foreground of hovered widgets.
    HoveredForeground,
    /// The theme's faint background.
    FaintBackground,
}

/// The face of the entry's edit control.
#[derive(Clone, Copy, Debug, PartialEq, Eq, Structural)]
pub enum EditButtonFace {
    /// The "pick up & configure" text, for a relay not yet in use.
    PickUpLabel,
    /// The gear glyph.
    Gear,
    /// The option symbol texture with this id.
    Symbol(u64),
}

/// How the edit control is drawn.
#[derive(Clone, Copy, Debug, PartialEq, Eq, Structural)]
pub struct EditButton {
    pub face: EditButtonFace,
    pub color: Paint,
    /// Underlined in `color`.
    pub underline: bool,
}

/// How the "Following" statistic is drawn.
#[derive(Debug)]
pub struct FollowingLabel {
    pub text: String,
    pub color: Paint,
    /// Underlined in `color`.
    pub underline: bool,
    /// The pointer becomes a pointing hand over it.
    pub pointing_hand: bool,
}

/// The state of a relay entry, as its contracts speak of it.
pub struct RelayEntryModel {
    pub relay: DbRelay,
    pub view: RelayEntryView,
    pub active: bool,
    pub user_count: Option<usize>,
    pub fill: Option<Color>,
    pub accent: Option<Color>,
    pub highlight: Option<Color>,
    pub option_symbol: Option<u64>,
}

/// A relay shown in the relay list, in one of two views.
pub struct RelayEntry<'a> {
    relay: &'a DbRelay,
    view: RelayEntryView,
    active: bool,
    user_count: Option<usize>,
    fill: Option<Color>,
    accent: Option<Color>,
    highlight: Option<Color>,
    option_symbol: Option<u64>,
}

impl<'a> RelayEntry<'a> {
    /// The entry's state.
    pub closed spec fn model(&self) -> RelayEntryModel {
        RelayEntryModel {
            relay: *self.relay,
            view: self.view,
            active: self.active,
            user_count: self.user_count,
            fill: self.fill,
            accent: self.accent,
            highlight: self.highlight,
            option_symbol: self.option_symbol,
        }
    }
}

/// The entry's accent colour, or the hovered-widget foreground without one.
pub open spec fn accent_or_hovered(accent: Option<Color>) -> Paint {
    match accent {
        Some(c) => Paint::Custom(c),
        None => Paint::HoveredForeground,
    }
}

/// Everything but the view is the same in both models.
pub open spec fn same_but_view(a: RelayEntryModel, b: RelayEntryModel) -> bool {
    &&& a.relay == b.relay
    &&& a.active == b.active
    &&& a.user_count == b.user_count
    &&& a.fill == b.fill
    &&& a.accent == b.accent
    &&& a.highlight == b.highlight
    &&& a.option_symbol == b.option_symbol
}

/// The "Following" statistic is live: the entry is active and knows how
/// many followed users use the relay.
pub open spec fn following_active(m: RelayEntryModel) -> bool {
    m.active && m.user_count is Some
}

/// The text of the "Following" statistic.
pub open spec fn following_text(user_count: Option<usize>) -> Seq<char> {
    match user_count {
        Some(n) => "Following: "@ + decimal(n as nat),
        None => "Following: ---"@,
    }
}

fn accent_paint(accent: Option<Color>) -> (p: Paint)
    ensures
        p == accent_or_hovered(accent),
{
    match accent {
        Some(c) => Paint::Custom(c),
        None => Paint::HoveredForeground,
    }
}

impl<'a> RelayEntry<'a> {
    /// A fresh entry for `relay`: the list view, active, with no user count,
    /// no custom colours and no option symbol.
    pub fn new(relay: &'a DbRelay) -> (e: Self)
        ensures
            e.model().relay == *relay,
            e.model().view == RelayEntryView::List,
            e.model().active,
            e.model().user_count is None,
            e.model().fill is None,
            e.model().accent is None,
            e.model().highlight is None,
            e.model().option_symbol is None,
    {
        RelayEntry {
            relay,
            view: RelayEntryView::List,
            active: true,
            user_count: None,
            fill: None,
            accent: None,
            highlight: None,
            option_symbol: None,
        }
    }

    /// Switches to the edit view when `edit` holds; otherwise the view is
    /// kept.
    pub fn edit(self, edit: bool) -> (e: Self)
        ensures
            e.model().view == (if edit { RelayEntryView::Edit } else { self.model().view }),
            same_but_view(e.model(), self.model()),
    {
        let mut e = self;
        if edit {
            e.view = RelayEntryView::Edit;
        }
        e
    }

    /// Sets whether the entry is active.
    pub fn set_active(self, active: bool) -> (e: Self)
        ensures
            e.model() == (RelayEntryModel { active, ..self.model() }),
    {
        let mut e = self;
        e.active = active;
        e
    }

    /// Sets how many followed users use the relay.
    pub fn user_count(self, count: usize) -> (e: Self)
        ensures
            e.model() == (RelayEntryModel { user_count: Some(count), ..self.model() }),
    {
        let mut e = self;
        e.user_count = Some(count);
        e
    }

    /// Sets the frame's fill colour.
    pub fn fill(self, fill: Color) -> (e: Self)
        ensures
            e.model() == (RelayEntryModel { fill: Some(fill), ..self.model() }),
    {
        let mut e = self;
        e.fill = Some(fill);
        e
    }

    /// Sets the accent colour.
    pub fn accent(self, accent: Color) -> (e: Self)
        ensures
            e.model() == (RelayEntryModel { accent: Some(accent), ..self.model() }),
    {
        let mut e = self;
        e.accent = Some(accent);
        e
    }

    /// Sets the highlight colour.
    pub fn highlight(self, highlight: Color) -> (e: Self)
        ensures
            e.model() == (RelayEntryModel { highlight: Some(highlight), ..self.model() }),
    {
        let mut e = self;
        e.highlight = Some(highlight);
        e
    }

    /// Sets the texture drawn as the option symbol, by its id.
    pub fn option_symbol(self, option_symbol: u64) -> (e: Self)
        ensures
            e.model() == (RelayEntryModel { option_symbol: Some(option_symbol), ..self.model() }),
    {
        let mut e = self;
        e.option_symbol = Some(option_symbol);
        e
    }

    /// The view the entry shows.
    pub fn view(&self) -> (v: RelayEntryView)
        ensures
            v == self.model().view,
    {
        self.view
    }

    /// The relay the entry shows.
    pub fn relay(&self) -> (r: &'a DbRelay)
        ensures
            *r == self.model().relay,
    {
        self.relay
    }

    /// Whether the entry is active.
    pub fn is_active(&self) -> (r: bool)
        ensures
            r == self.model().active,
    {
        self.active
    }

    /// The colour of the relay's title: the accent (or the text colour) when
    /// active, the inactive foreground otherwise.
    pub fn title_color(&self) -> (p: Paint)
        ensures
            p == (if self.model().active {
                match self.model().accent {
                    Some(c) => Paint::Custom(c),
                    None => Paint::Text,
                }
            } else {
                Paint::InactiveForeground
            }),
    {
        if self.active {
            match self.accent {
                Some(c) => Paint::Custom(c),
                None => Paint::Text,
            }
        } else {
            Paint::InactiveForeground
        }
    }

    /// The frame's fill: the entry's own, or the theme's faint background.
    pub fn frame_fill(&self) -> (p: Paint)
        ensures
            p == (match self.model().fill {
                Some(c) => Paint::Custom(c),
                None => Paint::FaintBackground,
            }),
    {
        match self.fill {
            Some(c) => Paint::Custom(c),
            None => Paint::FaintBackground,
        }
    }

    /// An inactive entry is covered by a translucent overlay in the list
    /// view.
    pub fn shows_overlay(&self) -> (r: bool)
        ensures
            r == !self.model().active,
    {
        !self.active
    }

    /// Draws the edit control from whether the pointer is over it and
    /// whether it was clicked. A relay not in use gets the "pick up &
    /// configure" text, which opens the edit view when an active entry's is
    /// clicked; a relay in use gets the option symbol or the gear glyph.
    pub fn paint_edit_btn(&mut self, hovered: bool, clicked: bool) -> (b: EditButton)
        ensures
            same_but_view(final(self).model(), old(self).model()),
            final(self).model().view == (if old(self).model().relay.usage_bits == 0 && old(self).model().active && clicked {
                RelayEntryView::Edit
            } else {
                old(self).model().view
            }),
            old(self).model().relay.usage_bits == 0 ==> {
                &&& b.face == EditButtonFace::PickUpLabel
                &&& b.color == (if !old(self).model().active {
                    Paint::InactiveForeground
                } else if hovered {
                    accent_or_hovered(old(self).model().accent)
                } else {
                    Paint::Text
                })
                &&& b.underline == (old(self).model().active && hovered)
            },
            old(self).model().relay.usage_bits != 0 ==> {
                &&& b.face == (match old(self).model().option_symbol {
                    Some(id) => EditButtonFace::Symbol(id),
                    None => EditButtonFace::Gear,
                })
                &&& b.color == (if hovered {
                    accent_or_hovered(old(self).model().accent)
                } else {
                    Paint::Text
                })
                &&& !b.underline
            },
    {
        if self.relay.usage_bits == 0 {
            let (color, underline) = if self.active {
                if hovered {
                    (accent_paint(self.accent), true)
                } else {
                    (Paint::Text, false)
                }
            } else {
                (Paint::InactiveForeground, false)
            };
            if self.active && clicked {
                self.view = RelayEntryView::Edit;
            }
            EditButton { face: EditButtonFace::PickUpLabel, color, underline }
        } else {
            let color = if hovered {
                accent_paint(self.accent)
            } else {
                Paint::Text
            };
            let face = match self.option_symbol {
                Some(id) => EditButtonFace::Symbol(id),
                None => EditButtonFace::Gear,
            };
            EditButton { face, color, underline: false }
        }
    }

    /// Draws the "Following" statistic from whether the pointer is over it:
    /// without a user count it is greyed out and reads "Following: ---".
    pub fn following_label(&self, hovered: bool) -> (l: FollowingLabel)
        ensures
            l.text@ == following_text(self.model().user_count),
            l.pointing_hand == following_active(self.model()),
            l.color == (if !following_active(self.model()) {
                Paint::WeakText
            } else if hovered {
                accent_or_hovered(self.model().accent)
            } else {
                Paint::Text
            }),
            l.underline == following_active(self.model()),
    {
        let mut active = self.active;
        let text = match self.user_count {
            Some(count) => {
                let mut t = String::from_str("Following: ");
                push_decimal(&mut t, count);
                t
            },
            None => {
                active = false;
                String::from_str("Following: ---")
            },
        };
        let color = if !active {
            Paint::WeakText
        } else if hovered {
            accent_paint(self.accent)
        } else {
            Paint::Text
        };
        FollowingLabel { text, color, underline: active, pointing_hand: active }
    }

    /// The line summing up what the relay is used for, such as
    /// "public read, private write, discover".
    pub fn usage_summary(&self) -> (s: String)
        ensures
            s@ == usage_summary_text(self.model().relay.usage_bits),
    {
        let relay = self.relay;
        let mut usage: Vec<&str> = Vec::new();
        if relay.has_usage_bits(READ | INBOX) {
            usage.push("public read");
        } else if relay.has_usage_bits(READ) {
            usage.push("private read");
        }
        let ghost after_read = usage@;
        if relay.has_usage_bits(WRITE | OUTBOX) {
            usage.push("public write");
        } else if relay.has_usage_bits(WRITE) {
            usage.push("private write");
        }
        let ghost after_write = usage@;
        if relay.has_usage_bits(ADVERTISE) {
            usage.push("advertise");
        }
        let ghost after_advertise = usage@;
        if relay.has_usage_bits(DISCOVER) {
            usage.push("discover");
        }
        assert(texts(usage@) =~= usage_labels(relay.usage_bits));
        join(&usage, ", ")
    }

    /// "Last event: " and `ago`, how long ago the relay's last general end of
    /// stored events was; "?" when the relay has no such time, whatever
    /// `ago` holds.
    pub fn last_event_text(&self, ago: &str) -> (s: String)
        ensures
            s@ == "Last event: "@ + match self.model().relay.last_general_eose_at {
                Some(_) => ago@,
                None => "?"@,
            },
    {
        match self.relay.last_general_eose_at {
            Some(_) => labelled("Last event: ", Some(ago)),
            None => labelled("Last event: ", None),
        }
    }

    /// "Last connection: " and `ago`, how long ago the relay was last
    /// connected to; "?" when the relay has no such time, whatever `ago`
    /// holds.
    pub fn last_connection_text(&self, ago: &str) -> (s: String)
        ensures
            s@ == "Last connection: "@ + match self.model().relay.last_connected_at {
                Some(_) => ago@,
                None => "?"@,
            },
    {
        match self.relay.last_connected_at {
            Some(_) => labelled("Last connection: ", Some(ago)),
            None => labelled("Last connection: ", None),
        }
    }
}

} // verus!
