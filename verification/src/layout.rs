//! The host's keyboard layout, as KDE's layout service reports it.
//!
//! Universal Symbols resolve their keycodes against the layout the firmware
//! believes is active, so a missed update means the keyboard types the wrong
//! characters: this is a correctness path, not a cosmetic one.
use crate::text::{
    chars_of, find_first, first_of, is_white_space, law_white_space_around_is_taken_off,
    lemma_first_of_bounds, lower, piece, spells, starts_at, to_lower, trim, trim_back, trim_front, trimmed,
};
use crate::time::{seconds, write_seconds};
use vstd::prelude::*;

verus! {

/// Layout codes the firmware understands.
pub const LAYOUT_EN: u8 = 0;

pub const LAYOUT_RU: u8 = 1;

/// D-Bus has no reply timeout of its own, so a name owned by a wedged process
/// would hang every call: this many nanoseconds are enough for an answer.
pub const METHOD_TIMEOUT: u128 = 5_000_000_000;

/// The characters that end the language part of an xkb layout name.
pub const VARIANT_MARKS: &'static str = "-_.:(@";

/// The short name of a firmware code.
pub fn code_name(code: u8) -> (name: &'static str)
    ensures
        name@ == (if code == LAYOUT_RU {
            "ru"@
        } else {
            "en"@
        }),
{
    if code == LAYOUT_RU {
        "ru"
    } else {
        "en"
    }
}

/// The language part of an xkb layout name: what stands in front of the first
/// variant mark, in small letters and without white space around the name.
pub open spec fn stem_of(xkb_name: Seq<char>) -> Seq<char> {
    let name = trimmed(xkb_name);
    name.take(first_of(name, VARIANT_MARKS@)).map_values(|c: char| lower(c))
}

/// The firmware's code for an xkb layout name, if it has one.
pub open spec fn code_for(xkb_name: Seq<char>) -> Option<u8> {
    let stem = stem_of(xkb_name);
    if stem == "en"@ || stem == "us"@ || stem == "gb"@ || stem == "uk"@ || stem == "au"@ || stem
        == "ca"@ {
        Some(LAYOUT_EN)
    } else if stem == "ru"@ || "russian"@.is_prefix_of(stem) {
        Some(LAYOUT_RU)
    } else {
        None
    }
}

/// Maps an xkb layout name onto the firmware's layout code.
pub fn normalize(xkb_name: &str) -> (code: Option<u8>)
    ensures
        code == code_for(xkb_name@),
{
    let name = trim(&chars_of(xkb_name));
    let end: usize = find_first(&name, 0, VARIANT_MARKS);
    assert(name@.skip(0) =~= name@);
    let front = piece(&name, 0, end);
    assert(front@ =~= name@.take(end as int));
    let stem = to_lower(&front);
    assert(stem@ == stem_of(xkb_name@));
    if spells(&stem, "en") || spells(&stem, "us") || spells(&stem, "gb") || spells(&stem, "uk")
        || spells(&stem, "au") || spells(&stem, "ca") {
        return Some(LAYOUT_EN);
    }
    assert(stem@.skip(0) =~= stem@);
    if spells(&stem, "ru") || starts_at(&stem, 0, "russian") {
        return Some(LAYOUT_RU);
    }
    None
}

/// How an attempt to reach the layout service ended.
#[derive(Debug, PartialEq, Eq)]
pub enum Handshake {
    /// Nothing came back within `METHOD_TIMEOUT`.
    TimedOut,
    /// The session bus or the service could not be reached, for this reason.
    Failed(String),
    /// The service named its active layout when asked. With that comes its
    /// list of layouts, if it handed one out.
    Answered(Option<Vec<(String, String, String)>>),
}

impl Handshake {
    /// Takes in what the service said when it was asked for its active layout,
    /// and the list that it handed out after that, if it did. Not naming the
    /// active layout is a failure at once, rather than at the first layout
    /// change, so that a session without the service degrades with one clear
    /// warning. Which layout it named makes no difference.
    pub fn answered(
        active: Result<u32, String>,
        list: Option<Vec<(String, String, String)>>,
    ) -> (outcome: Handshake)
        ensures
            outcome == (match active {
                Ok(_) => Handshake::Answered(list),
                Err(cause) => Handshake::Failed(cause),
            }),
    {
        match active {
            Ok(_) => Handshake::Answered(list),
            Err(cause) => Handshake::Failed(cause),
        }
    }
}

/// Why there is no layout service to follow.
#[derive(Debug, PartialEq, Eq)]
pub enum LayoutError {
    TimedOut,
    Failed(String),
}

impl LayoutError {
    /// The error in words.
    pub open spec fn spelled(self) -> Seq<char> {
        match self {
            LayoutError::TimedOut => "the layout service did not answer within "@ + seconds(
                METHOD_TIMEOUT,
            ) + "s"@,
            LayoutError::Failed(cause) => cause@,
        }
    }

    /// Puts the error into words.
    pub fn to_text(&self) -> (text: String)
        ensures
            text@ == self.spelled(),
    {
        match self {
            LayoutError::TimedOut => {
                let mut text = "the layout service did not answer within ".to_owned();
                text.append(write_seconds(METHOD_TIMEOUT).as_str());
                text.append("s");
                text
            },
            LayoutError::Failed(cause) => cause.as_str().to_owned(),
        }
    }
}

/// What is known of the layout service: the short names of its layouts, in the
/// order in which it numbers them.
#[derive(Debug, PartialEq, Eq)]
pub struct KdeLayouts {
    pub names: Vec<String>,
}

impl View for KdeLayouts {
    type V = Seq<Seq<char>>;

    open spec fn view(&self) -> Seq<Seq<char>> {
        self.names@.map_values(|name: String| name@)
    }
}

/// The short names in a list of layouts as the service hands it out.
pub open spec fn short_names(list: Seq<(String, String, String)>) -> Seq<Seq<char>> {
    list.map_values(|entry: (String, String, String)| entry.0@)
}

/// The names to go by after asking for the list. Where there was no answer, the
/// names stay as they were.
pub open spec fn refreshed(
    names: Seq<Seq<char>>,
    list: Option<Vec<(String, String, String)>>,
) -> Seq<Seq<char>> {
    match list {
        Some(list) => short_names(list@),
        None => names,
    }
}

/// The firmware code for a position in the list, if the list reaches that far
/// and the firmware has a code for the layout.
pub open spec fn code_at(names: Seq<Seq<char>>, index: u32) -> Option<u8> {
    if index < names.len() {
        code_for(names[index as int])
    } else {
        None
    }
}

impl KdeLayouts {
    /// Takes in the outcome of connecting. A service that does not answer fails
    /// here rather than at the first layout change. One that answers without a
    /// list is followed all the same.
    pub fn connect(outcome: Handshake) -> (layouts: Result<KdeLayouts, LayoutError>)
        ensures
            match outcome {
                Handshake::TimedOut => layouts == Err::<KdeLayouts, LayoutError>(
                    LayoutError::TimedOut,
                ),
                Handshake::Failed(cause) => layouts == Err::<KdeLayouts, LayoutError>(
                    LayoutError::Failed(cause),
                ),
                Handshake::Answered(list) => layouts matches Ok(layouts) && layouts@ == refreshed(
                    Seq::empty(),
                    list,
                ),
            },
    {
        match outcome {
            Handshake::TimedOut => Err(LayoutError::TimedOut),
            Handshake::Failed(cause) => Err(LayoutError::Failed(cause)),
            Handshake::Answered(list) => {
                let mut layouts = KdeLayouts { names: Vec::new() };
                assert(layouts@ =~= Seq::empty());
                layouts.refresh_names(list);
                Ok(layouts)
            },
        }
    }

    /// Takes in the answer to a request for the list of layouts.
    pub fn refresh_names(&mut self, list: Option<Vec<(String, String, String)>>)
        ensures
            final(self)@ == refreshed(old(self)@, list),
    {
        if let Some(list) = list {
            let mut names: Vec<String> = Vec::new();
            let mut i: usize = 0;
            while i < list.len()
                invariant
                    i <= list@.len(),
                    names@.len() == i,
                    forall|j: int| 0 <= j < i ==> names@[j]@ == list@[j].0@,
                decreases list@.len() - i,
            {
                names.push(list[i].0.clone());
                i += 1;
            }
            self.names = names;
            assert(self@ =~= short_names(list@));
        }
    }

    /// Whether the list is too short to resolve an index, so that it has to be
    /// asked for again before the index is given up.
    pub fn needs_refresh(&self, index: u32) -> (stale: bool)
        ensures
            stale == (index >= self@.len()),
    {
        index as usize >= self.names.len()
    }

    /// Resolves a layout index to a firmware code.
    ///
    /// There is none for layouts the firmware has no mapping for (a third
    /// layout such as `de`), which leaves the last known one in place.
    pub fn code_for_index(&self, index: u32) -> (code: Option<u8>)
        ensures
            code == code_at(self@, index),
    {
        if (index as usize) < self.names.len() {
            normalize(self.names[index as usize].as_str())
        } else {
            None
        }
    }
}

/// What the layout service just told us.
#[derive(Clone, Copy, Debug, PartialEq, Eq, Structural)]
pub enum Change {
    /// The active layout moved to this index.
    Active(u32),
    /// The list itself was edited, so the cached names are suspect.
    ListEdited,
    /// The stream ended: the bus connection behind it is gone for good and no
    /// further signal will ever arrive on it.
    Lost,
    /// A signal we could not read. Nothing to do but wait for the next one.
    Unreadable,
}

/// What one of the two signal streams of the service yielded.
#[derive(Clone, Copy, Debug, PartialEq, Eq, Structural)]
pub enum Signals {
    /// A change of the active layout, to this index.
    Changed(u32),
    /// A change of the active layout whose arguments could not be read.
    ChangedUnreadable,
    /// The end of the stream of changes.
    ChangedEnded,
    /// An edit of the layout list.
    ListChanged,
    /// The end of the stream of edits.
    ListEnded,
}

impl Signals {
    /// What a signal means. The end of either stream means that the service is
    /// lost.
    pub open spec fn change(self) -> Change {
        match self {
            Signals::Changed(index) => Change::Active(index),
            Signals::ChangedUnreadable => Change::Unreadable,
            Signals::ChangedEnded => Change::Lost,
            Signals::ListChanged => Change::ListEdited,
            Signals::ListEnded => Change::Lost,
        }
    }

    /// Reads the next signal.
    pub fn next(self) -> (change: Change)
        ensures
            change == self.change(),
    {
        match self {
            Signals::Changed(index) => Change::Active(index),
            Signals::ChangedUnreadable => Change::Unreadable,
            Signals::ChangedEnded => Change::Lost,
            Signals::ListChanged => Change::ListEdited,
            Signals::ListEnded => Change::Lost,
        }
    }
}

/// Edits to the list are followed, not just switches: once a new list has been
/// taken in, an index means what it means in that list, whatever stood at the
/// same position before.
pub proof fn law_an_index_follows_the_edited_list(
    before: Seq<Seq<char>>,
    list: Vec<(String, String, String)>,
    index: u32,
)
    ensures
        code_at(refreshed(before, Some(list)), index) == (if index < list@.len() {
            code_for(list@[index as int].0@)
        } else {
            None
        }),
{
}

/// Every code that a layout name leads to is one the firmware knows.
pub proof fn law_codes_are_known_to_the_firmware(xkb_name: Seq<char>)
    ensures
        code_for(xkb_name) matches Some(code) ==> code == LAYOUT_EN || code == LAYOUT_RU,
{
}

/// A variant mark and whatever follows it make no difference: `us(intl)` and
/// `us` are the same layout to the firmware. The language part may be anything
/// without a mark in it and without white space around it.
pub proof fn law_variants_share_a_code(language: Seq<char>, mark: char, rest: Seq<char>)
    requires
        trimmed(language) == language,
        forall|i: int|
            0 <= i < language.len() ==> !VARIANT_MARKS@.contains(#[trigger] language[i]),
        VARIANT_MARKS@.contains(mark),
    ensures
        stem_of(language.push(mark) + rest) == stem_of(language),
        code_for(language.push(mark) + rest) == code_for(language),
{
    let whole = language.push(mark) + rest;
    let n = language.len() as int;
    lemma_marks_are_visible(mark);
    assert(whole[n] == mark);
    if n > 0 {
        lemma_trimmed_starts_visibly(language);
        assert(whole[0] == language[0]);
    }
    lemma_trim_back_keeps(whole, n);
    let kept = trim_back(whole);
    assert forall|i: int| 0 <= i < n implies !VARIANT_MARKS@.contains(#[trigger] kept[i]) by {
        assert(kept[i] == language[i]);
    }
    lemma_first_of_at(kept, VARIANT_MARKS@, n);
    lemma_first_of_at(language, VARIANT_MARKS@, n);
    assert(kept.take(n) =~= language.take(n));
}

/// White space around a name makes no difference.
pub proof fn law_white_space_around_a_name_makes_no_difference(
    front: Seq<char>,
    xkb_name: Seq<char>,
    back: Seq<char>,
)
    requires
        forall|i: int| 0 <= i < front.len() ==> is_white_space(#[trigger] front[i]),
        forall|i: int| 0 <= i < back.len() ==> is_white_space(#[trigger] back[i]),
    ensures
        stem_of(front + xkb_name + back) == stem_of(xkb_name),
        code_for(front + xkb_name + back) == code_for(xkb_name),
{
    assert(front + xkb_name + back =~= front + (xkb_name + back));
    lemma_trim_front_drops(front, xkb_name + back);
    lemma_trim_front_splits(xkb_name, back);
    lemma_trim_front_drops(back, Seq::empty());
    assert(back + Seq::<char>::empty() =~= back);
    lemma_trim_back_drops(trim_front(xkb_name), back);
}

proof fn lemma_trim_front_drops(front: Seq<char>, s: Seq<char>)
    requires
        forall|i: int| 0 <= i < front.len() ==> is_white_space(#[trigger] front[i]),
    ensures
        trim_front(front + s) == trim_front(s),
    decreases front.len(),
{
    if front.len() > 0 {
        assert(is_white_space(front[0]));
        assert((front + s).drop_first() =~= front.drop_first() + s);
        lemma_trim_front_drops(front.drop_first(), s);
    } else {
        assert(front + s =~= s);
    }
}

proof fn lemma_trim_front_splits(s: Seq<char>, back: Seq<char>)
    ensures
        trim_front(s + back) == (if trim_front(s).len() > 0 {
            trim_front(s) + back
        } else {
            trim_front(back)
        }),
    decreases s.len(),
{
    if s.len() == 0 {
        assert(s + back =~= back);
    } else if is_white_space(s[0]) {
        assert((s + back).drop_first() =~= s.drop_first() + back);
        lemma_trim_front_splits(s.drop_first(), back);
    }
}

proof fn lemma_trim_back_drops(s: Seq<char>, back: Seq<char>)
    requires
        forall|i: int| 0 <= i < back.len() ==> is_white_space(#[trigger] back[i]),
    ensures
        trim_back(s + back) == trim_back(s),
    decreases back.len(),
{
    if back.len() > 0 {
        assert(is_white_space(back[back.len() - 1]));
        assert((s + back).drop_last() =~= s + back.drop_last());
        lemma_trim_back_drops(s, back.drop_last());
    } else {
        assert(s + back =~= s);
    }
}

/// Capitals make no difference.
pub proof fn law_capitals_share_a_code(xkb_name: Seq<char>)
    ensures
        stem_of(xkb_name.map_values(|c: char| lower(c))) == stem_of(xkb_name),
        code_for(xkb_name.map_values(|c: char| lower(c))) == code_for(xkb_name),
{
    let low = |c: char| lower(c);
    let name = trimmed(xkb_name);
    lemma_lower_trims(xkb_name);
    lemma_lower_first_of(name);
    lemma_first_of_bounds(name, VARIANT_MARKS@);
    let end = first_of(name, VARIANT_MARKS@);
    assert(name.map_values(low).take(end).map_values(low) =~= name.take(end).map_values(low));
}

proof fn lemma_marks_are_visible(mark: char)
    requires
        VARIANT_MARKS@.contains(mark),
    ensures
        !is_white_space(mark),
        lower(mark) == mark,
{
    reveal_strlit("-_.:(@");
}

proof fn lemma_trimmed_starts_visibly(s: Seq<char>)
    requires
        trimmed(s) == s,
        s.len() > 0,
    ensures
        !is_white_space(s[0]),
{
    if is_white_space(s[0]) {
        lemma_trims_shorten(s.drop_first());
        lemma_trims_shorten(trim_front(s.drop_first()));
    }
}

proof fn lemma_trims_shorten(s: Seq<char>)
    ensures
        trim_front(s).len() <= s.len(),
        trim_back(s).len() <= s.len(),
    decreases s.len(),
{
    if s.len() > 0 {
        lemma_trims_shorten(s.drop_first());
        lemma_trims_shorten(s.drop_last());
    }
}

proof fn lemma_trim_back_keeps(s: Seq<char>, n: int)
    requires
        0 <= n < s.len(),
        !is_white_space(s[n]),
    ensures
        n < trim_back(s).len() <= s.len(),
        trim_back(s) == s.take(trim_back(s).len() as int),
    decreases s.len(),
{
    if is_white_space(s.last()) {
        lemma_trim_back_keeps(s.drop_last(), n);
        assert(trim_back(s) =~= s.take(trim_back(s).len() as int));
    } else {
        assert(s =~= s.take(s.len() as int));
    }
}

proof fn lemma_first_of_at(s: Seq<char>, stops: Seq<char>, n: int)
    requires
        0 <= n <= s.len(),
        forall|i: int| 0 <= i < n ==> !stops.contains(#[trigger] s[i]),
        n < s.len() ==> stops.contains(s[n]),
    ensures
        first_of(s, stops) == n,
    decreases s.len(),
{
    if n > 0 {
        assert(!stops.contains(s[0]));
        assert forall|i: int| 0 <= i < n - 1 implies !stops.contains(
            #[trigger] s.drop_first()[i],
        ) by {
            assert(s.drop_first()[i] == s[i + 1]);
        }
        lemma_first_of_at(s.drop_first(), stops, n - 1);
    }
}

proof fn lemma_lower_front(s: Seq<char>)
    ensures
        trim_front(s.map_values(|c: char| lower(c))) == trim_front(s).map_values(
            |c: char| lower(c),
        ),
    decreases s.len(),
{
    let low = |c: char| lower(c);
    if s.len() > 0 {
        lemma_lower_front(s.drop_first());
        assert(s.map_values(low).drop_first() =~= s.drop_first().map_values(low));
    }
}

proof fn lemma_lower_back(s: Seq<char>)
    ensures
        trim_back(s.map_values(|c: char| lower(c))) == trim_back(s).map_values(|c: char| lower(c)),
    decreases s.len(),
{
    let low = |c: char| lower(c);
    if s.len() > 0 {
        lemma_lower_back(s.drop_last());
        assert(s.map_values(low).drop_last() =~= s.drop_last().map_values(low));
    }
}

proof fn lemma_lower_trims(s: Seq<char>)
    ensures
        trimmed(s.map_values(|c: char| lower(c))) == trimmed(s).map_values(|c: char| lower(c)),
{
    lemma_lower_front(s);
    lemma_lower_back(trim_front(s));
}

proof fn lemma_lower_first_of(s: Seq<char>)
    ensures
        first_of(s.map_values(|c: char| lower(c)), VARIANT_MARKS@) == first_of(
            s,
            VARIANT_MARKS@,
        ),
    decreases s.len(),
{
    let low = |c: char| lower(c);
    if s.len() > 0 {
        lemma_lower_first_of(s.drop_first());
        assert(s.map_values(low).drop_first() =~= s.drop_first().map_values(low));
        if VARIANT_MARKS@.contains(s[0]) {
            lemma_marks_are_visible(s[0]);
        }
        if VARIANT_MARKS@.contains(lower(s[0])) {
            reveal_strlit("-_.:(@");
        }
        assert(s.map_values(low)[0] == lower(s[0]));
    }
}

/// A name in small letters, without a mark and without white space around it, is
/// the language part itself.
pub proof fn law_a_plain_name_is_its_own_stem(name: Seq<char>)
    requires
        plainly_written(name),
    ensures
        stem_of(name) == name,
{
    lemma_first_of_at(name, VARIANT_MARKS@, name.len() as int);
    law_white_space_around_is_taken_off(name, ' ');
    assert(name.take(name.len() as int).map_values(|c: char| lower(c)) =~= name);
}

/// Whether a name is in small letters, without any of the characters that set a
/// variant off, and without white space around it.
pub open spec fn plainly_written(name: Seq<char>) -> bool {
    &&& name.len() > 0 ==> !is_white_space(name[0]) && !is_white_space(name.last())
    &&& forall|i: int|
        0 <= i < name.len() ==> !VARIANT_MARKS@.contains(#[trigger] name[i]) && !('A' <= name[i]
            <= 'Z')
}

/// What the firmware knows: English under six names, Russian under its own and
/// under everything that begins with its long name, and nothing else.
pub proof fn law_the_firmware_knows_two_layouts(name: Seq<char>)
    requires
        plainly_written(name),
    ensures
        code_for(name) == Some(0u8) <==> name == "en"@ || name == "us"@ || name == "gb"@ || name
            == "uk"@ || name == "au"@ || name == "ca"@,
        code_for(name) == Some(1u8) <==> name == "ru"@ || "russian"@.is_prefix_of(name),
        code_for(name) is None <==> code_for(name) != Some(0u8) && code_for(name) != Some(1u8),
{
    law_a_plain_name_is_its_own_stem(name);
    reveal_strlit("en");
    reveal_strlit("us");
    reveal_strlit("gb");
    reveal_strlit("uk");
    reveal_strlit("au");
    reveal_strlit("ca");
    reveal_strlit("ru");
    assert("ru"@.len() == 2 && "ru"@[0] == 'r');
    assert("en"@[0] == 'e' && "us"@[0] == 'u' && "gb"@[0] == 'g' && "uk"@[0] == 'u' && "au"@[0]
        == 'a' && "ca"@[0] == 'c');
    if "russian"@.is_prefix_of(name) {
        reveal_strlit("russian");
        assert(name.subrange(0, 7)[0] == 'r');
        assert(name.len() >= 7);
    }
}

/// The marks that set a variant off.
pub proof fn law_these_marks_set_a_variant_off(c: char)
    ensures
        VARIANT_MARKS@.contains(c) <==> c == '-' || c == '_' || c == '.' || c == ':' || c == '('
            || c == '@',
{
    reveal_strlit("-_.:(@");
    let marks = VARIANT_MARKS@;
    assert(marks[0] == '-' && marks[1] == '_' && marks[2] == '.' && marks[3] == ':' && marks[4]
        == '(' && marks[5] == '@');
}

/// An index means the name at that position of the list that came last, and
/// nothing beyond its end. A list that did not come changes nothing.
pub proof fn law_an_index_is_a_position(names: Seq<Seq<char>>, index: u32)
    ensures
        index < names.len() ==> code_at(names, index) == code_for(names[index as int]),
        index >= names.len() ==> code_at(names, index) is None,
        refreshed(names, None) == names,
{
}

/// What a signal means: a change carries its index, an edit says that there was
/// one, and the end of either stream is the end of the service.
pub proof fn law_a_signal_means_what_it_carries(index: u32)
    ensures
        Signals::Changed(index).change() == Change::Active(index),
        Signals::ChangedUnreadable.change() == Change::Unreadable,
        Signals::ListChanged.change() == Change::ListEdited,
        Signals::ChangedEnded.change() == Change::Lost,
        Signals::ListEnded.change() == Change::Lost,
{
}

/// An error of the layout service is told with its cause, or with how long it was
/// waited for.
pub proof fn law_a_layout_error_tells_its_cause(cause: String)
    ensures
        LayoutError::Failed(cause).spelled() == cause@,
        LayoutError::TimedOut.spelled() == "the layout service did not answer within 5s"@,
{
    reveal_strlit("the layout service did not answer within ");
    reveal_strlit("s");
    reveal_strlit("the layout service did not answer within 5s");
    assert(METHOD_TIMEOUT / 1_000_000_000 == 5);
    assert(seconds(METHOD_TIMEOUT) =~= seq!['5']);
    assert(LayoutError::TimedOut.spelled() =~= "the layout service did not answer within 5s"@);
}

} // verus!
