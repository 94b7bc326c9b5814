//! The kinds that a detection names: colours, armour plates and vehicles.

use vstd::prelude::*;

verus! {

/// The colour of a detected armour plate or vehicle.
#[allow(non_camel_case_types)]
#[derive(Debug, Clone, Copy, PartialEq, Eq)]
pub enum Color {
    BLUE,
    RED,
    N,
    P,
}

/// The kind of a detected armour plate.
#[allow(non_camel_case_types)]
#[derive(Debug, Clone, Copy, PartialEq, Eq)]
pub enum ArmorType {
    GUARD,
    N1,
    N2,
    N3,
    N4,
    N5,
    OUTPOST,
    BASE_SMALL,
    BASE_BIG,
    NONE,
}

/// The kind of a detected vehicle.
#[allow(non_camel_case_types)]
#[derive(Debug, Clone, Copy, PartialEq, Eq, Structural)]
pub enum CarType {
    CAR,
    WATCHER,
    BASE,
}

/// The number that stands for a colour on the Python side.
pub open spec fn color_code(c: Color) -> u8 {
    match c {
        Color::BLUE => 0u8,
        Color::RED => 1,
        Color::N => 2,
        Color::P => 3,
    }
}

/// The number that stands for an armour kind on the Python side.
pub open spec fn armor_code(a: ArmorType) -> u8 {
    match a {
        ArmorType::GUARD => 0u8,
        ArmorType::N1 => 1,
        ArmorType::N2 => 2,
        ArmorType::N3 => 3,
        ArmorType::N4 => 4,
        ArmorType::N5 => 5,
        ArmorType::OUTPOST => 6,
        ArmorType::BASE_SMALL => 7,
        ArmorType::BASE_BIG => 8,
        ArmorType::NONE => 9,
    }
}

/// The number that stands for a vehicle kind on the Python side.
pub open spec fn car_code(t: CarType) -> u8 {
    match t {
        CarType::CAR => 0u8,
        CarType::WATCHER => 1,
        CarType::BASE => 2,
    }
}

impl Color {
    /// The number that stands for the colour on the Python side.
    pub fn code(&self) -> (c: u8)
        ensures
            c == match *self {
                Color::BLUE => 0u8,
                Color::RED => 1,
                Color::N => 2,
                Color::P => 3,
            },
            c == color_code(*self),
    {
        match self {
            Color::BLUE => 0,
            Color::RED => 1,
            Color::N => 2,
            Color::P => 3,
        }
    }
}

impl ArmorType {
    /// The number that stands for the armour kind on the Python side.
    pub fn code(&self) -> (c: u8)
        ensures
            c == match *self {
                ArmorType::GUARD => 0u8,
                ArmorType::N1 => 1,
                ArmorType::N2 => 2,
                ArmorType::N3 => 3,
                ArmorType::N4 => 4,
                ArmorType::N5 => 5,
                ArmorType::OUTPOST => 6,
                ArmorType::BASE_SMALL => 7,
                ArmorType::BASE_BIG => 8,
                ArmorType::NONE => 9,
            },
            c == armor_code(*self),
    {
        match self {
            ArmorType::GUARD => 0,
            ArmorType::N1 => 1,
            ArmorType::N2 => 2,
            ArmorType::N3 => 3,
            ArmorType::N4 => 4,
            ArmorType::N5 => 5,
            ArmorType::OUTPOST => 6,
            ArmorType::BASE_SMALL => 7,
            ArmorType::BASE_BIG => 8,
            ArmorType::NONE => 9,
        }
    }
}

impl CarType {
    /// The number that stands for the vehicle kind on the Python side.
    pub fn code(&self) -> (c: u8)
        ensures
            c == match *self {
                CarType::CAR => 0u8,
                CarType::WATCHER => 1,
                CarType::BASE => 2,
            },
            c == car_code(*self),
    {
        match self {
            CarType::CAR => 0,
            CarType::WATCHER => 1,
            CarType::BASE => 2,
        }
    }
}

/// What the detector reports of one armour plate: the vehicle it is on, that
/// vehicle's colour, and the kind of plate.
#[derive(Debug, Clone, Copy, PartialEq, Eq)]
pub struct Sighting {
    pub car_type: CarType,
    pub car_color: Color,
    pub armor_type: ArmorType,
}

/// The name of a colour, as the detector's messages spell it.
pub open spec fn color_name(c: Color) -> Seq<char> {
    match c {
        Color::BLUE => "BLUE"@,
        Color::RED => "RED"@,
        Color::N => "N"@,
        Color::P => "P"@,
    }
}

/// The name of an armour kind, as the detector's messages spell it.
pub open spec fn armor_name(a: ArmorType) -> Seq<char> {
    match a {
        ArmorType::GUARD => "GUARD"@,
        ArmorType::N1 => "N1"@,
        ArmorType::N2 => "N2"@,
        ArmorType::N3 => "N3"@,
        ArmorType::N4 => "N4"@,
        ArmorType::N5 => "N5"@,
        ArmorType::OUTPOST => "OUTPOST"@,
        ArmorType::BASE_SMALL => "BASE_SMALL"@,
        ArmorType::BASE_BIG => "BASE_BIG"@,
        ArmorType::NONE => "NONE"@,
    }
}

/// The name of a vehicle kind, as the detector's messages spell it.
pub open spec fn car_name(t: CarType) -> Seq<char> {
    match t {
        CarType::CAR => "CAR"@,
        CarType::WATCHER => "WATCHER"@,
        CarType::BASE => "BASE"@,
    }
}

impl Color {
    /// The colour's name.
    pub fn name(&self) -> (n: &'static str)
        ensures
            n@ == color_name(*self),
    {
        match self {
            Color::BLUE => "BLUE",
            Color::RED => "RED",
            Color::N => "N",
            Color::P => "P",
        }
    }
}

impl ArmorType {
    /// The armour kind's name.
    pub fn name(&self) -> (n: &'static str)
        ensures
            n@ == armor_name(*self),
    {
        match self {
            ArmorType::GUARD => "GUARD",
            ArmorType::N1 => "N1",
            ArmorType::N2 => "N2",
            ArmorType::N3 => "N3",
            ArmorType::N4 => "N4",
            ArmorType::N5 => "N5",
            ArmorType::OUTPOST => "OUTPOST",
            ArmorType::BASE_SMALL => "BASE_SMALL",
            ArmorType::BASE_BIG => "BASE_BIG",
            ArmorType::NONE => "NONE",
        }
    }
}

impl CarType {
    /// The vehicle kind's name.
    pub fn name(&self) -> (n: &'static str)
        ensures
            n@ == car_name(*self),
    {
        match self {
            CarType::CAR => "CAR",
            CarType::WATCHER => "WATCHER",
            CarType::BASE => "BASE",
        }
    }
}

/// Distinct colours have distinct codes and distinct names.
pub proof fn lemma_color_names_distinct(a: Color, b: Color)
    ensures
        a != b ==> color_code(a) != color_code(b),
        a != b ==> color_name(a) != color_name(b),
{
    reveal_strlit("BLUE");
    reveal_strlit("RED");
    reveal_strlit("N");
    reveal_strlit("P");
    if a != b && color_name(a) == color_name(b) {
        assert(color_name(a).len() == color_name(b).len());
        assert(color_name(a)[0] == color_name(b)[0]);
    }
}

/// Distinct armour kinds have distinct codes and distinct names.
pub proof fn lemma_armor_names_distinct(a: ArmorType, b: ArmorType)
    ensures
        a != b ==> armor_code(a) != armor_code(b),
        a != b ==> armor_name(a) != armor_name(b),
{
    reveal_strlit("GUARD");
    reveal_strlit("N1");
    reveal_strlit("N2");
    reveal_strlit("N3");
    reveal_strlit("N4");
    reveal_strlit("N5");
    reveal_strlit("OUTPOST");
    reveal_strlit("BASE_SMALL");
    reveal_strlit("BASE_BIG");
    reveal_strlit("NONE");
    if a != b && armor_name(a) == armor_name(b) {
        assert(armor_name(a).len() == armor_name(b).len());
        assert(armor_name(a)[0] == armor_name(b)[0]);
        assert(armor_name(a)[1] == armor_name(b)[1]);
        if armor_name(a).len() > 5 {
            assert(armor_name(a)[5] == armor_name(b)[5]);
        }
    }
}

/// A numbered armour kind, with code `k` from one to five, is named `N`
/// followed by the digit `k`.
pub proof fn lemma_armor_name_follows_code(a: ArmorType)
    requires
        1 <= armor_code(a) <= 5,
    ensures
        armor_name(a).len() == 2,
        armor_name(a)[0] == 'N',
        armor_name(a)[1] as u32 == '0' as u32 + armor_code(a) as u32,
{
    reveal_strlit("N1");
    reveal_strlit("N2");
    reveal_strlit("N3");
    reveal_strlit("N4");
    reveal_strlit("N5");
}

/// Distinct vehicle kinds have distinct codes and distinct names.
pub proof fn lemma_car_names_distinct(a: CarType, b: CarType)
    ensures
        a != b ==> car_code(a) != car_code(b),
        a != b ==> car_name(a) != car_name(b),
{
    reveal_strlit("CAR");
    reveal_strlit("WATCHER");
    reveal_strlit("BASE");
    if a != b && car_name(a) == car_name(b) {
        assert(car_name(a).len() == car_name(b).len());
        assert(car_name(a)[0] == car_name(b)[0]);
    }
}

/// How a sighting is listed: the vehicle's colour, a space, the plate's kind.
pub open spec fn sighting_text(s: Sighting) -> Seq<char> {
    color_name(s.car_color) + " "@ + armor_name(s.armor_type)
}

/// How many sightings are on vehicles of kind `car_type`.
pub open spec fn count_on(sightings: Seq<Sighting>, car_type: CarType) -> nat
    decreases sightings.len(),
{
    if sightings.len() == 0 {
        0
    } else {
        count_on(sightings.drop_last(), car_type) + if sightings.last().car_type == car_type {
            1nat
        } else {
            0nat
        }
    }
}

/// The sightings on vehicles of kind `car_type`, listed in order and
/// separated by ", ".
pub open spec fn contact_text(sightings: Seq<Sighting>, car_type: CarType) -> Seq<char>
    decreases sightings.len(),
{
    if sightings.len() == 0 {
        Seq::empty()
    } else {
        let acc = contact_text(sightings.drop_last(), car_type);
        let s = sightings.last();
        if s.car_type != car_type {
            acc
        } else if acc.len() == 0 {
            sighting_text(s)
        } else {
            acc + ", "@ + sighting_text(s)
        }
    }
}

/// The sightings on vehicles of kind `car_type`, in order.
pub open spec fn sightings_on(sightings: Seq<Sighting>, car_type: CarType) -> Seq<Sighting> {
    sightings.filter(|s: Sighting| s.car_type == car_type)
}

/// The pieces, in order, with `sep` between each two neighbours.
pub open spec fn joined(pieces: Seq<Seq<char>>, sep: Seq<char>) -> Seq<char>
    decreases pieces.len(),
{
    if pieces.len() == 0 {
        Seq::empty()
    } else if pieces.len() == 1 {
        pieces[0]
    } else {
        joined(pieces.drop_last(), sep) + sep + pieces.last()
    }
}

/// No sighting is listed as empty text.
pub proof fn lemma_sighting_text_nonempty(s: Sighting)
    ensures
        sighting_text(s).len() > 0,
{
    assert(" "@.len() == 1) by {
        reveal_strlit(" ");
    }
}

/// Joined pieces that are none of them empty are empty only where there are none.
proof fn lemma_joined_empty(pieces: Seq<Seq<char>>, sep: Seq<char>)
    requires
        forall|i: int| 0 <= i < pieces.len() ==> (#[trigger] pieces[i]).len() > 0,
    ensures
        joined(pieces, sep).len() == 0 <==> pieces.len() == 0,
    decreases pieces.len(),
{
    if pieces.len() > 1 {
        assert(pieces.last() == pieces[pieces.len() - 1]);
    }
}

/// The count is the number of sightings on vehicles of the kind, and the
/// listing joins the texts of exactly those sightings, in order, with ", ":
/// one entry per sighting, repeated sightings included.
pub proof fn lemma_summary_lists_each_sighting(sightings: Seq<Sighting>, car_type: CarType)
    ensures
        count_on(sightings, car_type) == sightings_on(sightings, car_type).len(),
        contact_text(sightings, car_type) == joined(
            sightings_on(sightings, car_type).map_values(|s: Sighting| sighting_text(s)),
            ", "@,
        ),
    decreases sightings.len(),
{
    reveal_with_fuel(Seq::filter, 2);
    let f = |s: Sighting| sighting_text(s);
    if sightings.len() > 0 {
        let rest = sightings.drop_last();
        let x = sightings.last();
        lemma_summary_lists_each_sighting(rest, car_type);
        let before = sightings_on(rest, car_type);
        let pieces = before.map_values(f);
        assert(sightings_on(sightings, car_type) == if x.car_type == car_type { before.push(x) } else { before });
        assert forall|i: int| 0 <= i < pieces.len() implies (#[trigger] pieces[i]).len() > 0 by {
            lemma_sighting_text_nonempty(before[i]);
        }
        lemma_joined_empty(pieces, ", "@);
        if x.car_type == car_type {
            let more = before.push(x).map_values(f);
            assert(more =~= pieces.push(sighting_text(x)));
            assert(more.drop_last() =~= pieces);
            if pieces.len() == 0 {
                assert(more.len() == 1);
                assert(more[0] == sighting_text(x));
            }
        }
    }
}

/// Summaries of two runs of sightings, one after the other, add up: the counts
/// add, and the listings join with ", " where both hold an entry.
pub proof fn lemma_summary_append(a: Seq<Sighting>, b: Seq<Sighting>, car_type: CarType)
    ensures
        count_on(a + b, car_type) == count_on(a, car_type) + count_on(b, car_type),
        contact_text(a + b, car_type) == if contact_text(a, car_type).len() == 0 {
            contact_text(b, car_type)
        } else if contact_text(b, car_type).len() == 0 {
            contact_text(a, car_type)
        } else {
            contact_text(a, car_type) + ", "@ + contact_text(b, car_type)
        },
    decreases b.len(),
{
    if b.len() == 0 {
        assert(a + b =~= a);
    } else {
        lemma_summary_append(a, b.drop_last(), car_type);
        assert((a + b).drop_last() =~= a + b.drop_last());
        assert((a + b).last() == b.last());
        let x = b.last();
        let ta = contact_text(a, car_type);
        let tb = contact_text(b.drop_last(), car_type);
        lemma_sighting_text_nonempty(x);
        if x.car_type == car_type && ta.len() > 0 && tb.len() > 0 {
            assert(ta + ", "@ + tb + ", "@ + sighting_text(x) =~= ta + ", "@ + (tb + ", "@ + sighting_text(x)));
        }
        if x.car_type == car_type && ta.len() > 0 && tb.len() == 0 {
            assert((tb + sighting_text(x)).len() > 0);
        }
    }
}

/// A single sighting is counted and listed as its text where it is on a
/// vehicle of the kind, and not at all otherwise.
pub proof fn lemma_summary_single(s: Sighting, car_type: CarType)
    ensures
        count_on(seq![s], car_type) == if s.car_type == car_type { 1nat } else { 0nat },
        contact_text(seq![s], car_type) == if s.car_type == car_type { sighting_text(s) } else { Seq::<char>::empty() },
{
    assert(seq![s].drop_last() =~= Seq::<Sighting>::empty());
    assert(seq![s].last() == s);
    assert(contact_text(seq![s].drop_last(), car_type) == Seq::<char>::empty());
    assert(count_on(seq![s].drop_last(), car_type) == 0);
}

/// The vehicle kinds in the order that a report lists them.
pub fn report_order() -> (order: Vec<CarType>)
    ensures
        order@ == seq![CarType::CAR, CarType::BASE, CarType::WATCHER],
{
    let mut order: Vec<CarType> = Vec::new();
    order.push(CarType::CAR);
    order.push(CarType::BASE);
    order.push(CarType::WATCHER);
    proof {
        assert(order@ =~= seq![CarType::CAR, CarType::BASE, CarType::WATCHER]);
    }
    order
}

/// How many sightings are on vehicles of kind `car_type`, and their listing.
pub fn summarize(sightings: &Vec<Sighting>, car_type: CarType) -> (r: (usize, String))
    ensures
        r.0 == count_on(sightings@, car_type),
        r.1@ == contact_text(sightings@, car_type),
{
    let mut count: usize = 0;
    let mut contact = String::new();
    let mut i: usize = 0;
    while i < sightings.len()
        invariant
            i <= sightings@.len(),
            count == count_on(sightings@.take(i as int), car_type),
            count <= i,
            contact@ == contact_text(sightings@.take(i as int), car_type),
        decreases sightings.len() - i,
    {
        proof {
            assert(sightings@.take(i + 1).drop_last() =~= sightings@.take(i as int));
        }
        let s = sightings[i];
        if s.car_type == car_type {
            count = count + 1;
            if contact.as_str().is_empty() {
                contact.append(s.car_color.name());
                contact.append(" ");
                contact.append(s.armor_type.name());
            } else {
                contact.append(", ");
                contact.append(s.car_color.name());
                contact.append(" ");
                contact.append(s.armor_type.name());
            }
        }
        i = i + 1;
    }
    proof {
        assert(sightings@.take(i as int) =~= sightings@);
    }
    (count, contact)
}

} // verus!
