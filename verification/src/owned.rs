//! The host-side ownership discipline: move-only owners for the raw handles.
//!
//! The boundary itself erases ownership metadata, so a raw handle can be
//! copied and misused. These wrapper types re-establish scoped-release
//! semantics on the host side: access only borrows the owner, and the release
//! operation consumes it, so a handle owned this way cannot be read or
//! released a second time.

use crate::store::PersonStore;
use vstd::prelude::*;

verus! {

/// The exclusive owner of one person handle, from the factory's return until
/// its own consuming release.
pub struct OwnedPerson {
    handle: usize,
}

impl OwnedPerson {
    /// The raw handle this owner stands for.
    pub closed spec fn id(&self) -> usize {
        self.handle
    }

    /// Creates a person through the factory and takes ownership of the fresh
    /// handle.
    pub fn create(
        store: &mut PersonStore,
        first_name: &Vec<u8>,
        last_name: &Vec<u8>,
        gender: u8,
        age: u8,
        street_address: &Vec<u8>,
        city: &Vec<u8>,
        state: &Vec<u8>,
        country: &Vec<u8>,
    ) -> (o: OwnedPerson)
        ensures
            o.id() != 0,
            o.id() == old(store).persons@.len() + 1,
            final(store).person_live(o.id()),
            final(store).persons@.len() == old(store).persons@.len() + 1,
            forall|i: int|
                0 <= i < old(store).persons@.len() ==> final(store).persons@[i] == old(
                    store,
                ).persons@[i],
            final(store).texts@ == old(store).texts@,
            final(store).persons@[o.id() - 1] matches Some(p) && {
                &&& p.first_name@ == crate::text::lossy_decode(crate::text::nul_prefix(first_name@))
                &&& p.last_name@ == crate::text::lossy_decode(crate::text::nul_prefix(last_name@))
                &&& p.gender == crate::person::gender_of_byte(gender)
                &&& p.age == age
                &&& p.location.street_address@ == crate::text::lossy_decode(
                    crate::text::nul_prefix(street_address@),
                )
                &&& p.location.city@ == crate::text::lossy_decode(crate::text::nul_prefix(city@))
                &&& p.location.state@ == crate::text::lossy_decode(crate::text::nul_prefix(state@))
                &&& p.location.country@ == crate::text::lossy_decode(
                    crate::text::nul_prefix(country@),
                )
            },
    {
        let handle = store.create_new_person(
            first_name,
            last_name,
            gender,
            age,
            street_address,
            city,
            state,
            country,
        );
        OwnedPerson { handle }
    }

    /// The owned person's rendered info, borrowed access only.
    pub fn info(&self, store: &PersonStore) -> (r: String)
        requires
            store.person_live(self.id()),
        ensures
            r@ == store.persons@[self.id() - 1]->0.info_view(),
    {
        store.print_person_info(self.handle).unwrap()
    }

    /// Hands out a separately owned text buffer with the person's info.
    pub fn get_info(&self, store: &mut PersonStore) -> (t: OwnedText)
        requires
            old(store).person_live(self.id()),
        ensures
            final(store).text_live(t.id()),
            t.id() == old(store).texts@.len() + 1,
            final(store).persons@ == old(store).persons@,
            final(store).texts@.len() == old(store).texts@.len() + 1,
            forall|i: int|
                0 <= i < old(store).texts@.len() ==> final(store).texts@[i] == old(
                    store,
                ).texts@[i],
            final(store).texts@[t.id() - 1] matches Some(s) && s@ == old(
                store,
            ).persons@[self.id() - 1]->0.info_view(),
    {
        OwnedText { handle: store.get_person_info(self.handle) }
    }

    /// Releases the person, consuming the owner: with the handle gone, no
    /// second release and no later access can be written.
    pub fn release(self, store: &mut PersonStore)
        requires
            old(store).person_live(self.id()),
        ensures
            final(store).persons@ == old(store).persons@.update(self.id() - 1, None),
            final(store).texts@ == old(store).texts@,
            !final(store).person_live(self.id()),
    {
        store.release_person_pointer(self.handle);
    }
}

/// The exclusive owner of one text buffer handed out by the info accessor.
pub struct OwnedText {
    handle: usize,
}

impl OwnedText {
    /// The raw handle this owner stands for.
    pub closed spec fn id(&self) -> usize {
        self.handle
    }

    /// Borrows the buffer's content.
    pub fn content<'a>(&self, store: &'a PersonStore) -> (s: &'a String)
        requires
            store.text_live(self.id()),
        ensures
            s == store.texts@[self.id() - 1]->0,
    {
        store.text_content(self.handle)
    }

    /// Releases the buffer, consuming the owner.
    pub fn release(self, store: &mut PersonStore)
        requires
            old(store).text_live(self.id()),
        ensures
            final(store).texts@ == old(store).texts@.update(self.id() - 1, None),
            final(store).persons@ == old(store).persons@,
            !final(store).text_live(self.id()),
    {
        store.release_get_person_info(self.handle);
    }
}

} // verus!
