//! Telling the keyboard's raw HID node from the others.
use crate::number::{
    decimal, law_decimal_is_plain, law_decimal_reads_back, law_numbers_are_in_range, number_in,
    parse_number,
};
use crate::path::{below, joined, FilePath};
use crate::text::{
    chars_of, field, field_of, law_a_field_is_read_off_its_line,
    law_every_key_in_front_is_taken_off, law_other_lines_are_passed_over,
    law_the_second_piece_stands_between_separators, lines, second_piece, second_piece_of,
    strip_front, strip_repeated,
};
use vstd::prelude::*;
use vstd::utf8::encode_utf8;

verus! {

/// Ergohaven vendor id; the dongle and the wired halves share it.
pub const HID_VENDOR_ID: u16 = 0xE126;

/// Usage page 0xFF60 / usage 0x61: the QMK-compatible raw HID interface.
pub const RAW_HID_DESCRIPTOR_PREFIX: [u8; 5] = [0x06, 0x60, 0xFF, 0x09, 0x61];

/// One hidraw node that speaks the QMK-compatible raw HID protocol.
#[derive(Debug, PartialEq, Eq)]
pub struct Candidate {
    pub path: FilePath,
    /// The node number, because a directory listing is lexicographic and there
    /// `hidraw10` sorts before `hidraw2`: without this the pick would flip
    /// between replugs once numbering crosses nine.
    pub number: u32,
    pub name: String,
}

/// What a candidate says, without how it is stored.
pub struct CandidateView {
    pub path: Seq<u8>,
    pub number: u32,
    pub name: Seq<char>,
}

impl View for Candidate {
    type V = CandidateView;

    open spec fn view(&self) -> CandidateView {
        CandidateView { path: self.path@, number: self.number, name: self.name@ }
    }
}

/// Whether a uevent file names the Ergohaven vendor: the second of the parts
/// that colons separate in its `HID_ID`, read as hexadecimal.
pub open spec fn ergohaven(uevent: Seq<char>) -> bool {
    match field_of(lines(uevent), "HID_ID="@) {
        Some(id) => match second_piece_of(id, ":"@) {
            Some(vendor) => number_in(vendor, 16, u32::MAX as int) == Some(HID_VENDOR_ID as int),
            None => false,
        },
        None => false,
    }
}

/// Reads the vendor out of a uevent file and compares it.
pub fn vendor_matches(uevent: &str) -> (matching: bool)
    ensures
        matching == ergohaven(uevent@),
{
    match field(uevent, "HID_ID=") {
        Some(id) => match second_piece(&chars_of(id.as_str()), ":") {
            Some(vendor) => match parse_number(&vendor, 16, u32::MAX as u64) {
                Some(number) => number == HID_VENDOR_ID as u64,
                None => false,
            },
            None => false,
        },
        None => false,
    }
}

/// Whether a report descriptor opens the raw HID interface.
pub open spec fn raw_hid(descriptor: Seq<u8>) -> bool {
    RAW_HID_DESCRIPTOR_PREFIX@.is_prefix_of(descriptor)
}

/// Compares the front of a report descriptor.
fn speaks_raw_hid(descriptor: &Vec<u8>) -> (speaks: bool)
    ensures
        speaks == raw_hid(descriptor@),
{
    if descriptor.len() < 5 {
        return false;
    }
    let mut i: usize = 0;
    while i < 5
        invariant
            i <= 5 <= descriptor@.len(),
            forall|j: int| 0 <= j < i ==> descriptor@[j] == RAW_HID_DESCRIPTOR_PREFIX@[j],
        decreases 5 - i,
    {
        if descriptor[i] != RAW_HID_DESCRIPTOR_PREFIX[i] {
            assert(descriptor@.subrange(0, 5)[i as int] != RAW_HID_DESCRIPTOR_PREFIX@[i as int]);
            return false;
        }
        i += 1;
    }
    assert(RAW_HID_DESCRIPTOR_PREFIX@ =~= descriptor@.subrange(0, 5));
    true
}

/// The number in a node's name, or the largest there is where it has none.
pub open spec fn node_number(node: Seq<char>) -> u32 {
    match number_in(strip_repeated(node, "hidraw"@), 10, u32::MAX as int) {
        Some(number) => number as u32,
        None => u32::MAX,
    }
}

/// The device name in a uevent file.
pub open spec fn device_name(uevent: Seq<char>) -> Seq<char> {
    match field_of(lines(uevent), "HID_NAME="@) {
        Some(name) => name,
        None => "unnamed"@,
    }
}

/// What is made of one entry of the hidraw listing: the text of its uevent
/// file, its report descriptor if it could be read, and its name if it is text.
pub open spec fn candidate_in(
    uevent: Seq<char>,
    descriptor: Option<Seq<u8>>,
    node: Option<Seq<char>>,
) -> Option<CandidateView> {
    match (descriptor, node) {
        (Some(descriptor), Some(node)) => if ergohaven(uevent) && raw_hid(descriptor) {
            Some(
                CandidateView {
                    path: below(encode_utf8("/dev"@), node),
                    number: node_number(node),
                    name: device_name(uevent),
                },
            )
        } else {
            None
        },
        _ => None,
    }
}

/// Judges one entry of the hidraw listing.
///
/// Matching on the report descriptor rather than a fixed product id keeps this
/// working across the Qube/mini/micro variants, which differ in pid.
pub fn candidate(uevent: &str, descriptor: Option<Vec<u8>>, node: Option<&str>) -> (found: Option<
    Candidate,
>)
    ensures
        (match found {
            Some(found) => Some(found@),
            None => None,
        }) == candidate_in(
            uevent@,
            match descriptor {
                Some(descriptor) => Some(descriptor@),
                None => None,
            },
            match node {
                Some(node) => Some(node@),
                None => None,
            },
        ),
{
    if !vendor_matches(uevent) {
        return None;
    }
    match descriptor {
        Some(descriptor) => if !speaks_raw_hid(&descriptor) {
            return None;
        },
        None => {
            return None;
        },
    }
    let node = match node {
        Some(node) => node,
        None => {
            return None;
        },
    };
    let number: u32 = match parse_number(
        &strip_front(&chars_of(node), "hidraw"),
        10,
        u32::MAX as u64,
    ) {
        Some(number) => number as u32,
        None => u32::MAX,
    };
    let name = match field(uevent, "HID_NAME=") {
        Some(name) => name,
        None => "unnamed".to_owned(),
    };
    Some(Candidate { path: FilePath::of("/dev").join(node), number, name })
}

/// The candidates with a given node number, in the order of the listing.
pub open spec fn numbered(candidates: Seq<Candidate>, number: u32) -> Seq<Candidate> {
    candidates.filter(|candidate: Candidate| candidate.number == number)
}

/// Whether the node numbers only ever go up.
pub open spec fn ascending(candidates: Seq<Candidate>) -> bool {
    forall|i: int, j: int|
        0 <= i <= j < candidates.len() ==> candidates[i].number <= candidates[j].number
}

/// Whether `order` holds the listed candidates by node number, those with the
/// same number in the order of the listing.
pub open spec fn ranks(listed: Seq<Candidate>, order: Seq<Candidate>) -> bool {
    &&& ascending(order)
    &&& forall|number: u32| #[trigger] numbered(order, number) == numbered(listed, number)
}

/// Where a candidate with this number goes in an order that already stands:
/// in front of the first whose number is not lower.
pub open spec fn place_for(order: Seq<Candidate>, number: u32) -> int
    decreases order.len(),
{
    if order.len() == 0 || order[0].number >= number {
        0
    } else {
        1 + place_for(order.drop_first(), number)
    }
}

/// The candidates by node number, those with the same number in the order of
/// the listing.
pub open spec fn ranking(listed: Seq<Candidate>) -> Seq<Candidate>
    decreases listed.len(),
{
    if listed.len() == 0 {
        Seq::empty()
    } else {
        let later = ranking(listed.drop_first());
        later.insert(place_for(later, listed[0].number), listed[0])
    }
}

/// The outcome of looking through the hidraw nodes.
#[derive(Debug, PartialEq, Eq)]
pub struct Search {
    pub chosen: Option<Candidate>,
    /// What would have matched just as well. A wired half attached alongside
    /// the dongle does, and writes to the wrong node succeed silently, so this
    /// deserves a warning.
    pub ignored: Vec<Candidate>,
}

/// Picks the keyboard's raw HID node among the listed candidates: the one with
/// the lowest number.
pub fn find_raw_hid_device(listed: Vec<Candidate>) -> (search: Search)
    ensures
        match search.chosen {
            Some(chosen) => listed@.len() > 0 && ranking(listed@) == seq![chosen]
                + search.ignored@,
            None => listed@.len() == 0 && search.ignored@.len() == 0,
        },
{
    let mut order = by_number(listed);
    if order.len() == 0 {
        return Search { chosen: None, ignored: order };
    }
    let chosen = order.remove(0);
    assert(ranking(listed@) =~= seq![chosen] + order@);
    Search { chosen: Some(chosen), ignored: order }
}

/// Sorts the candidates by node number, keeping the order of the listing where
/// numbers are equal.
fn by_number(listed: Vec<Candidate>) -> (order: Vec<Candidate>)
    ensures
        order@ == ranking(listed@),
        order@.len() == listed@.len(),
{
    let ghost all = listed@;
    let mut rest = listed;
    let mut order: Vec<Candidate> = Vec::new();
    while rest.len() > 0
        invariant
            rest@.len() <= all.len(),
            rest@ == all.take(rest@.len() as int),
            order@ == ranking(all.skip(rest@.len() as int)),
            order@.len() == all.len() - rest@.len(),
        decreases rest@.len(),
    {
        let ghost later = all.skip(rest@.len() as int);
        let ghost before = order@;
        assert(before.skip(0) =~= before);
        match rest.pop() {
            Some(next) => {
                let mut at: usize = 0;
                while at < order.len() && order[at].number < next.number
                    invariant
                        at <= order@.len(),
                        order@ == before,
                        place_for(before, next.number) == at + place_for(
                            before.skip(at as int),
                            next.number,
                        ),
                    decreases order@.len() - at,
                {
                    assert(before.skip(at as int).drop_first() =~= before.skip(at as int + 1));
                    at += 1;
                }
                proof {
                    let now_listed = all.skip(rest@.len() as int);
                    assert(now_listed.drop_first() =~= later);
                    assert(now_listed[0] == next);
                    assert(rest@ =~= all.take(rest@.len() as int));
                }
                order.insert(at, next);
            },
            None => {},
        }
    }
    assert(all.skip(0) =~= all);
    order
}

/// The ranking is what its name says: the numbers go up, and those that are
/// equal keep the order of the listing.
pub proof fn law_ranking_ranks(listed: Seq<Candidate>)
    ensures
        ranks(listed, ranking(listed)),
        ranking(listed).len() == listed.len(),
    decreases listed.len(),
{
    if listed.len() > 0 {
        let later = ranking(listed.drop_first());
        law_ranking_ranks(listed.drop_first());
        lemma_place(later, listed[0].number);
        lemma_insert_ranks(
            listed.drop_first(),
            later,
            listed[0],
            place_for(later, listed[0].number),
        );
        assert(seq![listed[0]] + listed.drop_first() =~= listed);
    } else {
        assert(listed =~= ranking(listed));
    }
}

proof fn lemma_place(order: Seq<Candidate>, number: u32)
    ensures
        0 <= place_for(order, number) <= order.len(),
        forall|i: int| 0 <= i < place_for(order, number) ==> order[i].number < number,
        place_for(order, number) < order.len() ==> order[place_for(order, number)].number
            >= number,
    decreases order.len(),
{
    if order.len() > 0 && order[0].number < number {
        lemma_place(order.drop_first(), number);
        assert forall|i: int| 0 <= i < place_for(order, number) implies order[i].number
            < number by {
            if i > 0 {
                assert(order[i] == order.drop_first()[i - 1]);
            }
        }
    }
}

/// Putting a candidate that is listed in front of the others before everything
/// whose number is not lower keeps the order.
proof fn lemma_insert_ranks(
    listed: Seq<Candidate>,
    order: Seq<Candidate>,
    next: Candidate,
    at: int,
)
    requires
        ranks(listed, order),
        0 <= at <= order.len(),
        forall|i: int| 0 <= i < at ==> order[i].number < next.number,
        at < order.len() ==> order[at].number >= next.number,
    ensures
        ranks(seq![next] + listed, order.insert(at, next)),
{
    let after = order.insert(at, next);
    let front = order.take(at);
    let back = order.skip(at);
    assert(after =~= front + seq![next] + back);
    assert(order =~= front + back);
    assert forall|number: u32| #[trigger]
        numbered(after, number) == numbered(seq![next] + listed, number) by {
        let same = |candidate: Candidate| candidate.number == number;
        Seq::filter_distributes_over_add(front + seq![next], back, same);
        Seq::filter_distributes_over_add(front, seq![next], same);
        Seq::filter_distributes_over_add(front, back, same);
        Seq::filter_distributes_over_add(seq![next], listed, same);
        assert(numbered(order, number) == numbered(listed, number));
        if next.number == number {
            lemma_none_numbered(front, number);
            assert(front.filter(same) =~= Seq::empty());
        } else {
            lemma_none_numbered(seq![next], number);
            assert(seq![next].filter(same) =~= Seq::empty());
        }
        assert(numbered(after, number) =~= numbered(seq![next] + listed, number));
    }
}

proof fn lemma_none_numbered(candidates: Seq<Candidate>, number: u32)
    requires
        forall|i: int| 0 <= i < candidates.len() ==> candidates[i].number != number,
    ensures
        numbered(candidates, number).len() == 0,
    decreases candidates.len(),
{
    reveal(Seq::filter);
    if candidates.len() > 0 {
        lemma_none_numbered(candidates.drop_last(), number);
    }
}

/// A ranking holds what was listed and nothing else.
proof fn lemma_ranks_contain(listed: Seq<Candidate>, order: Seq<Candidate>, candidate: Candidate)
    requires
        ranks(listed, order),
    ensures
        listed.contains(candidate) <==> order.contains(candidate),
{
    let number = candidate.number;
    let same = |other: Candidate| other.number == number;
    assert(numbered(order, number) == numbered(listed, number));
    if listed.contains(candidate) {
        let i = choose|i: int| 0 <= i < listed.len() && listed[i] == candidate;
        listed.lemma_filter_contains(same, i);
        order.lemma_filter_contains_rev(same, candidate);
    }
    if order.contains(candidate) {
        let i = choose|i: int| 0 <= i < order.len() && order[i] == candidate;
        order.lemma_filter_contains(same, i);
        listed.lemma_filter_contains_rev(same, candidate);
    }
}

/// Candidates as what they say, however they are stored.
pub open spec fn read_as(listed: Seq<Candidate>) -> Seq<CandidateView> {
    listed.map_values(|candidate: Candidate| candidate@)
}

/// The pick does not depend on the order in which the directory lists the
/// nodes: nodes have different numbers, and whichever way and however often they
/// are listed and read, the same one comes first.
pub proof fn law_pick_ignores_the_listing_order(listed: Seq<Candidate>, relisted: Seq<Candidate>)
    requires
        forall|node: CandidateView|
            read_as(listed).contains(node) <==> read_as(relisted).contains(node),
        forall|i: int, j: int|
            0 <= i < listed.len() && 0 <= j < listed.len() && listed[i].number
                == listed[j].number ==> listed[i]@ == listed[j]@,
    ensures
        listed.len() > 0 <==> relisted.len() > 0,
        listed.len() > 0 ==> ranking(listed)[0]@ == ranking(relisted)[0]@,
{
    if listed.len() > 0 {
        let other = lemma_listed_too(listed, relisted, listed[0]);
    }
    if relisted.len() > 0 {
        let other = lemma_listed_too(relisted, listed, relisted[0]);
    }
    if listed.len() > 0 {
        let first = ranking(listed)[0];
        let second = ranking(relisted)[0];
        law_pick_has_the_lowest_number(listed, listed[0]);
        law_pick_has_the_lowest_number(relisted, relisted[0]);
        let first_again = lemma_listed_too(listed, relisted, first);
        let second_before = lemma_listed_too(relisted, listed, second);
        law_pick_has_the_lowest_number(listed, second_before);
        law_pick_has_the_lowest_number(relisted, first_again);
        assert(first@.number == second_before@.number);
    }
}

/// What one listing holds stands in another that holds the same.
proof fn lemma_listed_too(
    listed: Seq<Candidate>,
    relisted: Seq<Candidate>,
    candidate: Candidate,
) -> (other: Candidate)
    requires
        listed.contains(candidate),
        forall|node: CandidateView|
            read_as(listed).contains(node) ==> read_as(relisted).contains(node),
    ensures
        relisted.contains(other),
        other@ == candidate@,
{
    let i = choose|i: int| 0 <= i < listed.len() && listed[i] == candidate;
    assert(read_as(listed)[i] == candidate@);
    assert(read_as(relisted).contains(candidate@));
    let j = choose|j: int| 0 <= j < read_as(relisted).len() && read_as(relisted)[j] == candidate@;
    assert(relisted[j]@ == candidate@);
    relisted[j]
}

/// The pick is the candidate with the lowest node number, counted as a number:
/// `hidraw2` comes before `hidraw10`.
pub proof fn law_pick_has_the_lowest_number(listed: Seq<Candidate>, candidate: Candidate)
    requires
        listed.contains(candidate),
    ensures
        ranking(listed).len() > 0,
        listed.contains(ranking(listed)[0]),
        ranking(listed)[0].number <= candidate.number,
{
    let order = ranking(listed);
    law_ranking_ranks(listed);
    lemma_ranks_contain(listed, order, candidate);
    assert(order.contains(order[0]));
    lemma_ranks_contain(listed, order, order[0]);
    let i = choose|i: int| 0 <= i < order.len() && order[i] == candidate;
    assert(order[0].number <= order[i].number);
}

/// What comes first in a ranking is the first listed of those with the lowest
/// number, and the rest of the ranking is the rest of the listing.
pub proof fn law_the_pick_is_the_first_of_the_lowest(listed: Seq<Candidate>) -> (at: int)
    requires
        listed.len() > 0,
    ensures
        0 <= at < listed.len(),
        ranking(listed).len() == listed.len(),
        ranking(listed)[0] == listed[at],
        forall|i: int| 0 <= i < at ==> listed[i].number > listed[at].number,
        forall|i: int| at <= i < listed.len() ==> listed[i].number >= listed[at].number,
        ranking(listed).skip(1).to_multiset() == listed.remove(at).to_multiset(),
    decreases listed.len(),
{
    let first = listed[0];
    let rest = listed.drop_first();
    let later = ranking(rest);
    lemma_ranking_holds_the_listing(listed);
    law_ranking_ranks(listed);
    law_ranking_ranks(rest);
    lemma_place(later, first.number);
    let at = if rest.len() == 0 {
        0
    } else {
        let behind = law_the_pick_is_the_first_of_the_lowest(rest);
        assert forall|i: int| 0 <= i < rest.len() implies rest[i] == listed[i + 1] by {}
        if later[0].number >= first.number {
            assert(place_for(later, first.number) == 0);
            assert forall|i: int| 0 <= i < listed.len() implies listed[i].number >= first.number by {
                if i > 0 {
                    assert(listed[i] == rest[i - 1]);
                }
            }
            0
        } else {
            assert(place_for(later, first.number) >= 1);
            let lowest = listed[behind + 1].number;
            assert forall|i: int| 0 <= i < behind + 1 implies listed[i].number
                > lowest by {
                if i > 0 {
                    assert(listed[i] == rest[i - 1]);
                }
            }
            assert forall|i: int| behind + 1 <= i < listed.len() implies listed[i].number
                >= lowest by {
                assert(listed[i] == rest[i - 1]);
            }
            behind + 1
        }
    };
    let order = ranking(listed);
    assert(order[0] == listed[at]);
    order.to_multiset_ensures();
    listed.to_multiset_ensures();
    assert(order.skip(1) =~= order.remove(0));
    assert(order.remove(0).to_multiset() =~= order.to_multiset().remove(order[0]));
    assert(listed.remove(at).to_multiset() =~= listed.to_multiset().remove(listed[at]));
    at
}

/// A ranking holds what was listed, each as often.
proof fn lemma_ranking_holds_the_listing(listed: Seq<Candidate>)
    ensures
        ranking(listed).to_multiset() == listed.to_multiset(),
    decreases listed.len(),
{
    if listed.len() == 0 {
        assert(ranking(listed) =~= listed);
    } else {
        let rest = listed.drop_first();
        let later = ranking(rest);
        lemma_ranking_holds_the_listing(rest);
        lemma_place(later, listed[0].number);
        let place = place_for(later, listed[0].number);
        let order = later.insert(place, listed[0]);
        order.to_multiset_ensures();
        listed.to_multiset_ensures();
        assert(order.remove(place) =~= later);
        assert(listed.remove(0) =~= rest);
        assert(order.contains(order[place]));
        assert(listed.contains(listed[0]));
        assert(order.to_multiset() =~= later.to_multiset().insert(listed[0]));
        assert(listed.to_multiset() =~= rest.to_multiset().insert(listed[0]));
    }
}

/// A node goes by the whole of its number, however many digits that has.
pub proof fn law_a_node_goes_by_its_whole_number(n: nat)
    requires
        n <= u32::MAX,
    ensures
        node_number("hidraw"@ + decimal(n)) == n,
{
    reveal_strlit("hidraw");
    law_decimal_is_plain(n);
    law_decimal_reads_back(n, u32::MAX as int);
    if "hidraw"@.is_prefix_of(decimal(n)) {
        assert(decimal(n).subrange(0, 6)[0] == 'h');
        assert(decimal(n)[0] == 'h');
    }
    law_every_key_in_front_is_taken_off(decimal(n), "hidraw"@);
}

/// Any number of `hidraw`s in front of a name make no difference, and a name that
/// has no number behind them comes after all that do.
pub proof fn law_a_node_without_a_number_comes_last(rest: Seq<char>)
    ensures
        node_number("hidraw"@ + rest) == node_number(rest),
        !"hidraw"@.is_prefix_of(rest) && number_in(rest, 10, u32::MAX as int) is None
            ==> node_number(rest) == u32::MAX,
        !"hidraw"@.is_prefix_of(rest) ==> (number_in(rest, 10, u32::MAX as int) matches Some(n)
            ==> node_number(rest) == n),
{
    reveal_strlit("hidraw");
    law_every_key_in_front_is_taken_off(rest, "hidraw"@);
    if let Some(n) = number_in(rest, 10, u32::MAX as int) {
        law_numbers_are_in_range(rest, 10, u32::MAX as int);
    }
}

/// Of two nodes the one with the lower number is picked before the other, however
/// the directory lists them: `hidraw2` before `hidraw10`.
pub proof fn law_nodes_are_picked_in_numerical_order(
    listed: Seq<Candidate>,
    low: Candidate,
    high: Candidate,
    low_number: nat,
    high_number: nat,
    low_uevent: Seq<char>,
    high_uevent: Seq<char>,
    low_descriptor: Option<Seq<u8>>,
    high_descriptor: Option<Seq<u8>>,
)
    requires
        low_number < high_number <= u32::MAX,
        listed.contains(low),
        listed.contains(high),
        candidate_in(low_uevent, low_descriptor, Some("hidraw"@ + decimal(low_number))) == Some(
            low@,
        ),
        candidate_in(high_uevent, high_descriptor, Some("hidraw"@ + decimal(high_number)))
            == Some(high@),
    ensures
        ranking(listed).len() > 0,
        ranking(listed)[0].number <= low_number,
        ranking(listed)[0] != high,
        listed.len() == 2 ==> ranking(listed)[0] == low,
{
    law_a_node_goes_by_its_whole_number(low_number);
    law_a_node_goes_by_its_whole_number(high_number);
    assert(low@.number == low_number);
    assert(high@.number == high_number);
    law_pick_has_the_lowest_number(listed, low);
    if listed.len() == 2 {
        let at = choose|at: int| 0 <= at < listed.len() && listed[at] == ranking(listed)[0];
        let i = choose|i: int| 0 <= i < listed.len() && listed[i] == low;
        let j = choose|j: int| 0 <= j < listed.len() && listed[j] == high;
        assert(i != j && at != j);
    }
}

/// A candidate is an entry that can be read whole, whose vendor is Ergohaven and
/// whose descriptor opens with the raw HID usage page and usage. It carries the
/// node below `/dev`, the number in its name, and the name of the device.
pub proof fn law_what_makes_a_candidate(
    uevent: Seq<char>,
    descriptor: Option<Seq<u8>>,
    node: Option<Seq<char>>,
)
    ensures
        ({
            let speaks = descriptor is Some && descriptor->0.len() >= 5 && descriptor->0[0] == 0x06
                && descriptor->0[1] == 0x60 && descriptor->0[2] == 0xFF && descriptor->0[3] == 0x09
                && descriptor->0[4] == 0x61;
            let found = candidate_in(uevent, descriptor, node);
            &&& found is Some <==> node is Some && speaks && ergohaven(uevent)
            &&& found is Some ==> {
                &&& found->0.path == joined(encode_utf8("/dev"@), encode_utf8(node->0))
                &&& found->0.number == node_number(node->0)
                &&& found->0.name == (match field_of(lines(uevent), "HID_NAME="@) {
                    Some(name) => name,
                    None => "unnamed"@,
                })
            }
        }),
{
    if let Some(bytes) = descriptor {
        if RAW_HID_DESCRIPTOR_PREFIX@.is_prefix_of(bytes) {
            let front = bytes.subrange(0, 5);
            assert(front == RAW_HID_DESCRIPTOR_PREFIX@);
            assert(front[0] == 0x06 && front[1] == 0x60 && front[2] == 0xFF && front[3] == 0x09
                && front[4] == 0x61);
        }
        if bytes.len() >= 5 && bytes[0] == 0x06 && bytes[1] == 0x60 && bytes[2] == 0xFF && bytes[3]
            == 0x09 && bytes[4] == 0x61 {
            assert(RAW_HID_DESCRIPTOR_PREFIX@ =~= bytes.subrange(0, 5));
        }
    }
}

/// The vendor is the hexadecimal number between the first two colons of `HID_ID`,
/// and has to be 0xE126. Lines before that one make no difference, nor does what
/// follows.
pub proof fn law_the_vendor_stands_between_the_colons(
    bus: Seq<char>,
    vendor: Seq<char>,
    product: Seq<char>,
    other: Seq<char>,
    rest: Seq<char>,
)
    requires
        !bus.contains(':') && !bus.contains('\n'),
        !vendor.contains(':') && !vendor.contains('\n'),
        !product.contains('\n'),
        product.len() > 0 && product.last() != '\r',
        !other.contains('\n'),
        !"HID_ID="@.is_prefix_of(other),
    ensures
        ergohaven(
            "HID_ID="@ + (bus.push(':') + vendor.push(':') + product) + seq!['\n'] + rest,
        ) <==> number_in(vendor, 16, u32::MAX as int) == Some(0xE126int),
        vendor.len() > 0 && vendor.last() != '\r' ==> (ergohaven(
            "HID_ID="@ + (bus.push(':') + vendor) + seq!['\n'] + rest,
        ) <==> number_in(vendor, 16, u32::MAX as int) == Some(0xE126int)),
        bus.len() > 0 && bus.last() != '\r' ==> !ergohaven(
            "HID_ID="@ + bus + seq!['\n'] + rest,
        ),
        ergohaven(other + seq!['\n'] + rest) == ergohaven(rest),
        !ergohaven(other),
        !ergohaven(Seq::empty()),
{
    let id = bus.push(':') + vendor.push(':') + product;
    reveal_strlit("HID_ID=");
    reveal_strlit(":");
    assert(":"@ =~= seq![':']);
    assert forall|i: int| 0 <= i < "HID_ID="@.len() implies "HID_ID="@[i] != '\n' by {}
    assert(!"HID_ID="@.contains('\n'));
    assert(!id.contains('\n')) by {
        if id.contains('\n') {
            let i = choose|i: int| 0 <= i < id.len() && id[i] == '\n';
            if i < bus.len() {
                assert(bus[i] == '\n');
            } else if bus.len() < i < bus.len() + 1 + vendor.len() {
                assert(vendor[i - bus.len() - 1] == '\n');
            } else if i > bus.len() + 1 + vendor.len() {
                assert(product[i - bus.len() - vendor.len() - 2] == '\n');
            }
        }
    }
    assert(id.last() == product.last());
    law_a_field_is_read_off_its_line("HID_ID="@, id, rest);
    let short = bus.push(':') + vendor;
    assert(!short.contains('\n')) by {
        if short.contains('\n') {
            let i = choose|i: int| 0 <= i < short.len() && short[i] == '\n';
            if i < bus.len() {
                assert(bus[i] == '\n');
            } else if i > bus.len() {
                assert(vendor[i - bus.len() - 1] == '\n');
            }
        }
    }
    if vendor.len() > 0 {
        assert(short.last() == vendor.last());
    }
    law_a_field_is_read_off_its_line("HID_ID="@, short, rest);
    law_a_field_is_read_off_its_line("HID_ID="@, bus, rest);
    law_the_second_piece_stands_between_separators(bus, vendor, ':', product);
    law_other_lines_are_passed_over("HID_ID="@, other, rest);
}

} // verus!
