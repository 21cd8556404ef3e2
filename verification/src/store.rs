//! The cross-boundary object lifecycle protocol.
//!
//! A `PersonStore` owns every `Person` the factory allocates and every text
//! buffer the info accessor hands out. A handle is an opaque non-zero value;
//! 0 plays the role of the null handle. Each handle is live from the moment
//! the factory returns it until the destructor consumes it; the destructors
//! treat null as a defined no-op, and calls on released handles are out of
//! contract (excluded by the preconditions, matching a protocol that offers
//! no metadata to detect them).

use crate::person::Gender;
use crate::person::Person;
use crate::person::gender_of_byte;
use crate::text::decode_text;
use crate::text::lossy_decode;
use crate::text::nul_prefix;
use vstd::pervasive::VecAdditionalExecFns;
use vstd::prelude::*;

verus! {

/// The number of live (not yet released) slots.
pub open spec fn count_live<T>(slots: Seq<Option<T>>) -> nat
    decreases slots.len(),
{
    if slots.len() == 0 {
        0
    } else {
        count_live(slots.drop_last()) + (if slots.last() is Some {
            1nat
        } else {
            0nat
        })
    }
}

/// The owner of every allocation that crosses the boundary: person records
/// and the text buffers returned by the info accessor. A released slot stays
/// behind as `None`, so a handle value is never reused.
pub struct PersonStore {
    pub persons: Vec<Option<Person>>,
    pub texts: Vec<Option<String>>,
}

impl PersonStore {
    /// True when `h` is a person handle that was created and not released.
    pub open spec fn person_live(&self, h: usize) -> bool {
        1 <= h <= self.persons@.len() && self.persons@[h - 1] is Some
    }

    /// True when `h` is a text handle that was handed out and not released.
    pub open spec fn text_live(&self, h: usize) -> bool {
        1 <= h <= self.texts@.len() && self.texts@[h - 1] is Some
    }

    /// An empty store with no allocations.
    pub fn new() -> (s: PersonStore)
        ensures
            s.persons@.len() == 0,
            s.texts@.len() == 0,
    {
        PersonStore { persons: Vec::new(), texts: Vec::new() }
    }

    /// The factory: copies the given field payloads into a new heap-owned
    /// `Person` and returns a fresh non-null handle that the caller now owns.
    /// Text arrives as nul-terminated byte buffers and is decoded as lossy
    /// UTF-8; the gender byte maps 0 to `Female`, 1 to `Male` and anything
    /// else to `Unknown`; any age byte is accepted.
    pub fn create_new_person(
        &mut self,
        first_name: &Vec<u8>,
        last_name: &Vec<u8>,
        gender: u8,
        age: u8,
        street_address: &Vec<u8>,
        city: &Vec<u8>,
        state: &Vec<u8>,
        country: &Vec<u8>,
    ) -> (h: usize)
        ensures
            h != 0,
            h == old(self).persons@.len() + 1,
            final(self).person_live(h),
            final(self).persons@.len() == old(self).persons@.len() + 1,
            forall|i: int|
                0 <= i < old(self).persons@.len() ==> final(self).persons@[i] == old(
                    self,
                ).persons@[i],
            final(self).texts@ == old(self).texts@,
            final(self).persons@[h - 1] matches Some(p) && {
                &&& p.first_name@ == lossy_decode(nul_prefix(first_name@))
                &&& p.last_name@ == lossy_decode(nul_prefix(last_name@))
                &&& p.gender == gender_of_byte(gender)
                &&& p.age == age
                &&& p.location.street_address@ == lossy_decode(nul_prefix(street_address@))
                &&& p.location.city@ == lossy_decode(nul_prefix(city@))
                &&& p.location.state@ == lossy_decode(nul_prefix(state@))
                &&& p.location.country@ == lossy_decode(nul_prefix(country@))
            },
    {
        let person = Person {
            first_name: decode_text(first_name),
            last_name: decode_text(last_name),
            gender: Gender::from_byte(gender),
            age,
            location: crate::person::Location::create_loction(street_address, city, state, country),
        };
        self.persons.push(Some(person));
        self.persons.len()
    }

    /// The printing accessor's decision logic: null is a defined no-op
    /// (nothing to print), and a live handle yields the rendered info for the
    /// caller to write out. Ownership of the handle never transfers.
    pub fn print_person_info(&self, h: usize) -> (r: Option<String>)
        requires
            h == 0 || self.person_live(h),
        ensures
            h == 0 ==> r is None,
            h != 0 ==> (r matches Some(s) && s@ == self.persons@[h - 1]->0.info_view()),
    {
        if h == 0 {
            return None;
        }
        match &self.persons[h - 1] {
            Some(p) => Some(p.get_info()),
            None => {
                proof {
                    assert(false);
                }
                None
            },
        }
    }

    /// The text accessor: allocates a new, separately owned text buffer
    /// holding the person's rendered info and returns its fresh non-null
    /// handle — an independent ownership chain, released by
    /// [`Self::release_get_person_info`]. A null person handle yields a
    /// buffer with empty content, not a failure.
    pub fn get_person_info(&mut self, h: usize) -> (t: usize)
        requires
            h == 0 || old(self).person_live(h),
        ensures
            t != 0,
            t == old(self).texts@.len() + 1,
            final(self).text_live(t),
            final(self).persons@ == old(self).persons@,
            final(self).texts@.len() == old(self).texts@.len() + 1,
            forall|i: int|
                0 <= i < old(self).texts@.len() ==> final(self).texts@[i] == old(self).texts@[i],
            final(self).texts@[t - 1] matches Some(s) && s@ == (if h == 0 {
                Seq::<char>::empty()
            } else {
                old(self).persons@[h - 1]->0.info_view()
            }),
    {
        let text = if h == 0 {
            String::new()
        } else {
            match &self.persons[h - 1] {
                Some(p) => p.get_info(),
                None => {
                    proof {
                        assert(false);
                    }
                    String::new()
                },
            }
        };
        self.texts.push(Some(text));
        self.texts.len()
    }

    /// The destructor: consumes a person handle and deallocates the record
    /// and everything it owns. Null is a defined no-op; releasing a handle a
    /// second time is out of contract and excluded by the precondition.
    pub fn release_person_pointer(&mut self, h: usize)
        requires
            h == 0 || old(self).person_live(h),
        ensures
            h == 0 ==> *final(self) == *old(self),
            h != 0 ==> final(self).persons@ == old(self).persons@.update(h - 1, None)
                && final(self).texts@ == old(self).texts@,
    {
        if h == 0 {
            return ;
        }
        self.persons.set(h - 1, None);
    }

    /// The destructor for text buffers returned by
    /// [`Self::get_person_info`], with the same null-is-no-op rule and the
    /// same double-release exclusion.
    pub fn release_get_person_info(&mut self, t: usize)
        requires
            t == 0 || old(self).text_live(t),
        ensures
            t == 0 ==> *final(self) == *old(self),
            t != 0 ==> final(self).texts@ == old(self).texts@.update(t - 1, None)
                && final(self).persons@ == old(self).persons@,
    {
        if t == 0 {
            return ;
        }
        self.texts.set(t - 1, None);
    }

    /// Borrows the content of a live text buffer.
    pub fn text_content(&self, t: usize) -> (s: &String)
        requires
            self.text_live(t),
        ensures
            s == self.texts@[t - 1]->0,
    {
        match &self.texts[t - 1] {
            Some(s) => s,
            None => {
                proof {
                    assert(false);
                }
                self.texts[t - 1].as_ref().unwrap()
            },
        }
    }

    /// The number of person records that were created and not yet released.
    pub fn live_persons(&self) -> (n: usize)
        ensures
            n == count_live(self.persons@),
    {
        count_live_slots(&self.persons)
    }

    /// The number of text buffers that were handed out and not yet released.
    pub fn live_texts(&self) -> (n: usize)
        ensures
            n == count_live(self.texts@),
    {
        count_live_slots(&self.texts)
    }
}

/// Counts the live slots of a handle vector.
fn count_live_slots<T>(slots: &Vec<Option<T>>) -> (n: usize)
    ensures
        n == count_live(slots@),
{
    let mut n: usize = 0;
    let mut i: usize = 0;
    proof {
        assert(slots@.take(0) =~= Seq::<Option<T>>::empty());
    }
    while i < slots.len()
        invariant
            i <= slots@.len(),
            n <= i,
            n == count_live(slots@.take(i as int)),
        decreases slots@.len() - i,
    {
        proof {
            assert(slots@.take(i as int + 1).drop_last() =~= slots@.take(i as int));
            assert(slots@.take(i as int + 1).last() == slots@[i as int]);
        }
        if slots[i].is_some() {
            n += 1;
        }
        i += 1;
    }
    proof {
        assert(slots@.take(i as int) =~= slots@);
    }
    n
}

/// Creating a person and immediately releasing the returned handle is
/// observably side-effect-free on any subsequent state: the text buffers are
/// untouched, every earlier slot is unchanged, and the number of live
/// allocations is back to what it was — no leak remains. The preconditions
/// are exactly what the factory and the destructor guarantee about the three
/// states `before`, `mid` (after the create) and `after` (after the release).
pub proof fn lemma_create_then_release_neutral(
    before: PersonStore,
    mid: PersonStore,
    after: PersonStore,
    h: usize,
)
    requires
        h == before.persons@.len() + 1,
        mid.persons@.len() == before.persons@.len() + 1,
        forall|i: int| 0 <= i < before.persons@.len() ==> mid.persons@[i] == before.persons@[i],
        mid.texts@ == before.texts@,
        after.persons@ == mid.persons@.update(h - 1, None),
        after.texts@ == mid.texts@,
    ensures
        after.texts@ == before.texts@,
        count_live(after.persons@) == count_live(before.persons@),
        forall|i: int| 0 <= i < before.persons@.len() ==> after.persons@[i] == before.persons@[i],
        forall|h2: usize|
            h2 != h ==> (before.person_live(h2) <==> after.person_live(h2)),
{
    assert(after.persons@ =~= before.persons@.push(None));
    assert(after.persons@.drop_last() =~= before.persons@);
    assert(count_live(after.persons@) == count_live(before.persons@));
}

} // verus!


