//! The roster and its elements.

use vstd::prelude::*;

verus! {

/// A named character with its cost in points.
#[derive(Debug, PartialEq, Eq)]
pub struct Character {
    pub name: String,
    pub points: u32,
}

/// A unit with its cost in points and the file name of its picture.
#[derive(Debug, PartialEq, Eq)]
pub struct Unit {
    pub name: String,
    pub points: u32,
    pub image: String,
}

/// A support item with its cost in points.
#[derive(Debug, PartialEq, Eq)]
pub struct Support {
    pub name: String,
    pub points: u32,
}

/// One entry of a roster. A free-form entry holds its label, its points and
/// the file name of its picture, in this order.
#[derive(Debug, PartialEq, Eq)]
pub enum RosterElement {
    ElemCharacter(Character),
    ElemUnit(Unit),
    ElemSupport(Support),
    ElemOther((String, u32, String)),
}

/// The elements of an army in the order in which they are shown. An element is
/// known to the canvas by its index in `elements`.
#[derive(Debug, PartialEq, Eq)]
pub struct Roster {
    pub elements: Vec<RosterElement>,
}

impl Clone for Character {
    fn clone(&self) -> (copy: Self)
        ensures
            copy == *self,
    {
        Character { name: self.name.clone(), points: self.points }
    }
}

impl Clone for Unit {
    fn clone(&self) -> (copy: Self)
        ensures
            copy == *self,
    {
        Unit { name: self.name.clone(), points: self.points, image: self.image.clone() }
    }
}

impl Clone for Support {
    fn clone(&self) -> (copy: Self)
        ensures
            copy == *self,
    {
        Support { name: self.name.clone(), points: self.points }
    }
}

impl Clone for RosterElement {
    fn clone(&self) -> (copy: Self)
        ensures
            copy == *self,
    {
        match self {
            RosterElement::ElemCharacter(character) => RosterElement::ElemCharacter(
                character.clone(),
            ),
            RosterElement::ElemUnit(unit) => RosterElement::ElemUnit(unit.clone()),
            RosterElement::ElemSupport(support) => RosterElement::ElemSupport(support.clone()),
            RosterElement::ElemOther((label, value, image)) => RosterElement::ElemOther(
                (label.clone(), *value, image.clone()),
            ),
        }
    }
}

impl Clone for Roster {
    fn clone(&self) -> (copy: Self)
        ensures
            copy.elements@ == self.elements@,
    {
        let mut elements: Vec<RosterElement> = Vec::new();
        let mut i: usize = 0;
        while i < self.elements.len()
            invariant
                i <= self.elements.len(),
                elements@ == self.elements@.take(i as int),
            decreases self.elements.len() - i,
        {
            elements.push(self.elements[i].clone());
            proof {
                assert(elements@ =~= self.elements@.take(i + 1));
            }
            i = i + 1;
        }
        proof {
            assert(elements@ =~= self.elements@);
        }
        Roster { elements: elements }
    }
}

/// The points that an element costs.
pub open spec fn element_points(elem: RosterElement) -> nat {
    match elem {
        RosterElement::ElemCharacter(character) => character.points as nat,
        RosterElement::ElemUnit(unit) => unit.points as nat,
        RosterElement::ElemSupport(support) => support.points as nat,
        RosterElement::ElemOther((_, value, _)) => value as nat,
    }
}

/// The points of an element.
pub fn get_element_points(elem: &RosterElement) -> (points: u32)
    ensures
        points == element_points(*elem),
{
    match elem {
        RosterElement::ElemCharacter(character) => character.points,
        RosterElement::ElemUnit(unit) => unit.points,
        RosterElement::ElemSupport(support) => support.points,
        RosterElement::ElemOther((_, value, _)) => *value,
    }
}

/// The points of all elements together; an empty roster costs nothing.
pub open spec fn total_points(elements: Seq<RosterElement>) -> nat
    decreases elements.len(),
{
    if elements.len() == 0 {
        0
    } else {
        total_points(elements.drop_last()) + element_points(elements.last())
    }
}

/// The total is the sum of the elements' points: nothing for no element, and
/// the points of each further element on top of the total before it.
pub proof fn lemma_total_points_is_sum(elements: Seq<RosterElement>, elem: RosterElement)
    ensures
        total_points(Seq::<RosterElement>::empty()) == 0,
        total_points(elements.push(elem)) == total_points(elements) + element_points(elem),
{
    assert(elements.push(elem).drop_last() =~= elements);
}

/// Taking one element out takes its points, and no others, off the total.
pub proof fn lemma_total_points_remove(elements: Seq<RosterElement>, index: int)
    requires
        0 <= index < elements.len(),
    ensures
        total_points(elements.remove(index)) == total_points(elements) - element_points(
            elements[index],
        ),
    decreases elements.len(),
{
    if index == elements.len() - 1 {
        assert(elements.remove(index) =~= elements.drop_last());
    } else {
        lemma_total_points_remove(elements.drop_last(), index);
        assert(elements.remove(index).drop_last() =~= elements.drop_last().remove(index));
    }
}

/// No element costs more than `u32::MAX`, so a total is bounded by the length.
pub proof fn lemma_total_points_bound(elements: Seq<RosterElement>)
    ensures
        total_points(elements) <= elements.len() * u32::MAX,
    decreases elements.len(),
{
    if elements.len() > 0 {
        lemma_total_points_bound(elements.drop_last());
    }
}

/// Adds up the points of a roster. The sum of any roster fits the result.
pub fn compute_total_points(roster: &Roster) -> (total: u128)
    ensures
        total == total_points(roster.elements@),
{
    let mut total: u128 = 0;
    let mut i: usize = 0;
    while i < roster.elements.len()
        invariant
            i <= roster.elements.len(),
            total == total_points(roster.elements@.take(i as int)),
        decreases roster.elements.len() - i,
    {
        let points: u32 = get_element_points(&roster.elements[i]);
        proof {
            let upto = roster.elements@.take(i + 1);
            assert(upto.drop_last() =~= roster.elements@.take(i as int));
            lemma_total_points_bound(roster.elements@.take(i as int));
        }
        total = total + points as u128;
        i = i + 1;
    }
    proof {
        assert(roster.elements@.take(i as int) =~= roster.elements@);
    }
    total
}

} // verus!
