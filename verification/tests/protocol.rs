use person_ffi::person::dec_string;
use person_ffi::person::Gender;
use person_ffi::person::Location;
use person_ffi::person::Person;
use person_ffi::owned::OwnedPerson;
use person_ffi::store::PersonStore;

#[test]
fn gender_bytes_zero_and_one_map_to_named_variants() {
    assert_eq!(Gender::from_byte(0), Gender::Female);
    assert_eq!(Gender::from_byte(1), Gender::Male);
}

#[test]
fn gender_byte_two_maps_to_unknown() {
    let g = Gender::from_byte(2);
    assert_eq!(g, Gender::Unknown);
    assert_ne!(g, Gender::Female);
    assert_ne!(g, Gender::Male);
}

#[test]
fn any_gender_byte_at_least_two_maps_to_unknown() {
    for b in 2..=255u8 {
        assert_eq!(Gender::from_byte(b), Gender::Unknown);
    }
}

#[test]
fn gender_labels() {
    assert_eq!(Gender::Female.label(), "Female");
    assert_eq!(Gender::Male.label(), "Male");
    assert_eq!(Gender::Unknown.label(), "Unknown");
}

#[test]
fn ages_render_as_decimal_digits() {
    assert_eq!(dec_string(0), "0");
    assert_eq!(dec_string(7), "7");
    assert_eq!(dec_string(30), "30");
    assert_eq!(dec_string(100), "100");
    assert_eq!(dec_string(255), "255");
}

#[test]
fn create_loction_copies_all_four_fields() {
    let l = Location::create_loction(
        &b"1 Main St".to_vec(),
        &b"Springfield".to_vec(),
        &b"IL".to_vec(),
        &b"USA".to_vec(),
    );
    assert_eq!(l.street_address, "1 Main St");
    assert_eq!(l.city, "Springfield");
    assert_eq!(l.state, "IL");
    assert_eq!(l.country, "USA");
}

#[test]
fn location_fields_decode_then_reencode_unchanged() {
    let fields: [&[u8]; 4] = [b"1 Main St", b"Springfield", "Z\u{fc}rich".as_bytes(), b"USA"];
    let l = Location::create_loction(
        &fields[0].to_vec(),
        &fields[1].to_vec(),
        &fields[2].to_vec(),
        &fields[3].to_vec(),
    );
    assert_eq!(person_ffi::text::encode_text(&l.street_address), fields[0]);
    assert_eq!(person_ffi::text::encode_text(&l.city), fields[1]);
    assert_eq!(person_ffi::text::encode_text(&l.state), fields[2]);
    assert_eq!(person_ffi::text::encode_text(&l.country), fields[3]);
}

#[test]
fn get_info_contains_every_field_verbatim() {
    let mut store = PersonStore::new();
    let h = store.create_new_person(
        &b"Wison".to_vec(),
        &b"Ye".to_vec(),
        1,
        18,
        &b"My street".to_vec(),
        &b"My city".to_vec(),
        &b"My state".to_vec(),
        &b"My country".to_vec(),
    );
    let t = store.get_person_info(h);
    let info = store.text_content(t).clone();
    for needle in ["Wison", "Ye", "Male", "18", "My street", "My country"] {
        assert!(info.contains(needle), "info is missing {needle:?}: {info}");
    }
    store.release_get_person_info(t);
    store.release_person_pointer(h);
}

#[test]
fn person_get_info_lists_fields_by_label() {
    let p = Person {
        first_name: "Ada".to_string(),
        last_name: "Lovelace".to_string(),
        gender: Gender::Female,
        age: 36,
        location: Location {
            street_address: "12 St James Square".to_string(),
            city: "London".to_string(),
            state: "England".to_string(),
            country: "UK".to_string(),
        },
    };
    let info = p.get_info();
    assert_eq!(
        info,
        "First name: Ada\nLast name: Lovelace\nGender: Female\nAge: 36\n\
         Street address: 12 St James Square\nCity: London\nState: England\nCountry: UK\n"
    );
}

#[test]
fn null_handle_accessors_do_not_crash() {
    let mut store = PersonStore::new();
    assert!(store.print_person_info(0).is_none());
    let t = store.get_person_info(0);
    assert_ne!(t, 0);
    assert_eq!(store.text_content(t).as_str(), "");
    store.release_get_person_info(t);
}

#[test]
fn null_handle_destructors_are_no_ops() {
    let mut store = PersonStore::new();
    store.release_person_pointer(0);
    store.release_get_person_info(0);
    assert_eq!(store.live_persons(), 0);
    assert_eq!(store.live_texts(), 0);
}

#[test]
fn create_then_release_leaves_no_outstanding_allocation() {
    let mut store = PersonStore::new();
    let before = store.live_persons();
    let h = store.create_new_person(
        &b"A".to_vec(),
        &b"B".to_vec(),
        0,
        1,
        &b"s".to_vec(),
        &b"c".to_vec(),
        &b"st".to_vec(),
        &b"co".to_vec(),
    );
    assert_eq!(store.live_persons(), before + 1);
    store.release_person_pointer(h);
    assert_eq!(store.live_persons(), before);
    assert_eq!(store.live_texts(), 0);
}

#[test]
fn handles_are_independent() {
    let mut store = PersonStore::new();
    let h1 = store.create_new_person(
        &b"One".to_vec(),
        &b"First".to_vec(),
        0,
        1,
        &b"s1".to_vec(),
        &b"c1".to_vec(),
        &b"st1".to_vec(),
        &b"co1".to_vec(),
    );
    let h2 = store.create_new_person(
        &b"Two".to_vec(),
        &b"Second".to_vec(),
        1,
        2,
        &b"s2".to_vec(),
        &b"c2".to_vec(),
        &b"st2".to_vec(),
        &b"co2".to_vec(),
    );
    assert_ne!(h1, h2);
    store.release_person_pointer(h1);
    let info = store.print_person_info(h2).expect("second handle is still live");
    assert!(info.contains("Two"));
    assert_eq!(store.live_persons(), 1);
    store.release_person_pointer(h2);
    assert_eq!(store.live_persons(), 0);
}

#[test]
fn end_to_end_scenario() {
    let mut store = PersonStore::new();
    let h = store.create_new_person(
        &b"Alice".to_vec(),
        &b"Smith".to_vec(),
        0,
        30,
        &b"1 Main St".to_vec(),
        &b"Springfield".to_vec(),
        &b"IL".to_vec(),
        &b"USA".to_vec(),
    );
    let t = store.get_person_info(h);
    let info = store.text_content(t).clone();
    for needle in ["Alice", "Smith", "Female", "30", "1 Main St", "Springfield", "IL", "USA"] {
        assert!(info.contains(needle), "info is missing {needle:?}: {info}");
    }
    store.release_get_person_info(t);
    store.release_person_pointer(h);
    assert_eq!(store.live_persons(), 0);
    assert_eq!(store.live_texts(), 0);
}

#[test]
fn lossy_name_decoding_reaches_the_record() {
    let mut store = PersonStore::new();
    let h = store.create_new_person(
        &vec![0x41, 0xff, 0x42],
        &b"Nul\0cut".to_vec(),
        7,
        0,
        &b"s".to_vec(),
        &b"c".to_vec(),
        &b"st".to_vec(),
        &b"co".to_vec(),
    );
    let info = store.print_person_info(h).expect("handle is live");
    assert!(info.contains("A\u{fffd}B"));
    assert!(info.contains("Nul\n"));
    assert!(!info.contains("cut"));
    assert!(info.contains("Unknown"));
    store.release_person_pointer(h);
}

#[test]
fn owned_handles_release_exactly_once() {
    let mut store = PersonStore::new();
    let owner = OwnedPerson::create(
        &mut store,
        &b"Alice".to_vec(),
        &b"Smith".to_vec(),
        0,
        30,
        &b"1 Main St".to_vec(),
        &b"Springfield".to_vec(),
        &b"IL".to_vec(),
        &b"USA".to_vec(),
    );
    let info = owner.info(&store);
    assert!(info.contains("Alice"));
    let text = owner.get_info(&mut store);
    assert!(text.content(&store).contains("Female"));
    text.release(&mut store);
    owner.release(&mut store);
    assert_eq!(store.live_persons(), 0);
    assert_eq!(store.live_texts(), 0);
}
