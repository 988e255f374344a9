use voxmorph::error::ModelError;
use voxmorph::timbre::{
    decode_embedding, encode_embedding, sanitize_filename, timbre_from_parts, Timbre, TimbreId,
    TimbreLibrary, TimbreMetadata,
};

fn make_timbre(id: u64, name: &str, tags: Vec<&str>) -> Timbre {
    Timbre {
        id: TimbreId::new(id),
        name: name.to_string(),
        embedding: vec![0.0f32.to_bits(); 8],
        f0_offset_semitones: 0.0f32.to_bits(),
        tags: tags.into_iter().map(String::from).collect(),
    }
}

#[test]
fn from_timbres_builds_indices() {
    let lib = TimbreLibrary::from_timbres(vec![
        make_timbre(1, "Alice", vec!["female"]),
        make_timbre(2, "Bob", vec!["male"]),
    ]);
    assert_eq!(lib.len(), 2);
    assert!(lib.find_by_id(&TimbreId::new(1)).is_some());
    assert!(lib.find_by_name("Bob").is_some());
    assert!(lib.find_by_name("Charlie").is_none());
}

#[test]
fn find_by_tag_returns_matches() {
    let lib = TimbreLibrary::from_timbres(vec![
        make_timbre(1, "Alice", vec!["female", "anime"]),
        make_timbre(2, "Bob", vec!["male", "deep"]),
        make_timbre(3, "Carol", vec!["female", "deep"]),
    ]);
    let female = lib.find_by_tag("female");
    assert_eq!(female.len(), 2);
    let deep = lib.find_by_tag("deep");
    assert_eq!(deep.len(), 2);
    let none = lib.find_by_tag("child");
    assert!(none.is_empty());
}

#[test]
fn find_by_tag_ci_case_insensitive() {
    let lib = TimbreLibrary::from_timbres(vec![make_timbre(1, "A", vec!["Female"])]);
    assert_eq!(lib.find_by_tag_ci("female").len(), 1);
    assert_eq!(lib.find_by_tag_ci("FEMALE").len(), 1);
}

#[test]
fn empty_library() {
    let lib = TimbreLibrary::from_timbres(vec![]);
    assert!(lib.is_empty());
    assert_eq!(lib.len(), 0);
    assert!(lib.list().is_empty());
}

#[test]
fn metadata_from_timbre_extracts_fields() {
    let timbre = Timbre {
        id: TimbreId::new(7),
        name: "test".to_string(),
        embedding: vec![0.0f32.to_bits(); 256],
        f0_offset_semitones: 3.0f32.to_bits(),
        tags: vec!["low".to_string()],
    };
    let meta = TimbreMetadata::from_timbre(&timbre);
    assert_eq!(meta.id, timbre.id);
    assert_eq!(meta.name, "test");
    assert_eq!(f32::from_bits(meta.f0_offset_semitones), 3.0);
    assert_eq!(meta.tags, vec!["low".to_string()]);
    assert_eq!(meta.embedding_len, 256);
}

#[test]
fn sanitize_replaces_special_chars() {
    assert_eq!(sanitize_filename("hello world"), "hello_world");
    assert_eq!(sanitize_filename("voice-1_2"), "voice-1_2");
    assert_eq!(sanitize_filename("a/b\\c"), "a_b_c");
    assert_eq!(sanitize_filename("纯中文"), "纯中文");
}

#[test]
fn sanitize_is_idempotent_on_values() {
    let once = sanitize_filename("My Voice: v2.0!");
    assert_eq!(once, "My_Voice__v2_0_");
    assert_eq!(sanitize_filename(&once), once);
}

#[test]
fn timbre_id_text_and_value() {
    let id = TimbreId::new(42);
    assert_eq!(id.get(), 42);
    assert_eq!(id.text(), "TimbreId(42)");
    assert_eq!(TimbreId::new(0).text(), "TimbreId(0)");
}

#[test]
fn embedding_encodes_little_endian() {
    let emb = vec![1.0f32.to_bits(), (-2.5f32).to_bits()];
    let bytes = encode_embedding(&emb);
    let mut expected = Vec::new();
    expected.extend_from_slice(&1.0f32.to_le_bytes());
    expected.extend_from_slice(&(-2.5f32).to_le_bytes());
    assert_eq!(bytes, expected);
}

#[test]
fn embedding_round_trip() {
    let emb: Vec<u32> = [0.1f32, 0.2, 0.3, -7.25].iter().map(|x| x.to_bits()).collect();
    let bytes = encode_embedding(&emb);
    assert_eq!(bytes.len(), 16);
    let back = decode_embedding(&bytes, 4).unwrap();
    assert_eq!(back, emb);
    let again = encode_embedding(&back);
    assert_eq!(again, bytes);
}

#[test]
fn embedding_length_mismatch_message() {
    let bytes = vec![0u8; 12];
    match decode_embedding(&bytes, 5) {
        Err(ModelError::Embedding(m)) => assert_eq!(
            m,
            "embedding length mismatch: expected 20 bytes (5 f32), got 12 bytes"
        ),
        other => panic!("unexpected {:?}", other),
    }
    let e = decode_embedding(&bytes, 5).unwrap_err();
    assert_eq!(
        e.message(),
        "embedding invalid: embedding length mismatch: expected 20 bytes (5 f32), got 12 bytes"
    );
}

#[test]
fn timbre_from_parts_builds_timbre() {
    let meta = TimbreMetadata {
        id: TimbreId::new(3),
        name: "Deep".to_string(),
        f0_offset_semitones: (-4.0f32).to_bits(),
        tags: vec!["male".to_string(), "deep".to_string()],
        embedding_len: 3,
    };
    let mut bytes = Vec::new();
    for v in [0.1f32, 0.2, 0.3] {
        bytes.extend_from_slice(&v.to_le_bytes());
    }
    let t = timbre_from_parts(meta, &bytes).unwrap();
    assert_eq!(t.id, TimbreId::new(3));
    assert_eq!(t.name, "Deep");
    assert_eq!(f32::from_bits(t.f0_offset_semitones), -4.0);
    assert_eq!(t.tags, vec!["male".to_string(), "deep".to_string()]);
    let values: Vec<f32> = t.embedding.iter().map(|b| f32::from_bits(*b)).collect();
    assert_eq!(values, vec![0.1f32, 0.2, 0.3]);
}

#[test]
fn timbre_from_parts_rejects_wrong_length() {
    let meta = TimbreMetadata {
        id: TimbreId::new(1),
        name: "x".to_string(),
        f0_offset_semitones: 0,
        tags: vec![],
        embedding_len: 4,
    };
    let bytes = vec![0u8; 12];
    let r = timbre_from_parts(meta, &bytes);
    assert!(matches!(r, Err(ModelError::Embedding(_))));
}

#[test]
fn try_add_skips_duplicate_ids() {
    let mut lib = TimbreLibrary::from_timbres(vec![make_timbre(1, "A", vec![])]);
    assert!(lib.try_add(make_timbre(2, "B", vec![])));
    assert!(!lib.try_add(make_timbre(1, "C", vec![])));
    assert_eq!(lib.len(), 2);
    assert_eq!(lib.find_by_id(&TimbreId::new(1)).unwrap().name, "A");
    assert!(lib.find_by_name("C").is_none());
    assert_eq!(lib.find_by_id(&TimbreId::new(2)).unwrap().name, "B");
}

#[test]
fn from_loaded_skips_errors_and_duplicates() {
    let results = vec![
        Ok(make_timbre(1, "One", vec!["a"])),
        Err(ModelError::Embedding("bad".to_string())),
        Ok(make_timbre(2, "Two", vec!["b"])),
        Ok(make_timbre(1, "Dup", vec!["c"])),
        Err(ModelError::Metadata("broken".to_string())),
    ];
    let lib = TimbreLibrary::from_loaded(results);
    assert_eq!(lib.len(), 2);
    let names: Vec<&str> = lib.list().iter().map(|t| t.name.as_str()).collect();
    assert_eq!(names, vec!["One", "Two"]);
    assert!(lib.find_by_name("Dup").is_none());
    assert_eq!(lib.find_by_id(&TimbreId::new(1)).unwrap().name, "One");
}

#[test]
fn from_loaded_empty_is_empty() {
    let lib = TimbreLibrary::from_loaded(Vec::new());
    assert!(lib.is_empty());
}

#[test]
fn find_after_add_finds_new_id() {
    let mut lib = TimbreLibrary::from_timbres(vec![make_timbre(5, "Five", vec![])]);
    assert!(lib.find_by_id(&TimbreId::new(9)).is_none());
    assert!(lib.try_add(make_timbre(9, "Nine", vec![])));
    assert_eq!(lib.find_by_id(&TimbreId::new(9)).unwrap().name, "Nine");
    assert_eq!(lib.find_by_id(&TimbreId::new(5)).unwrap().name, "Five");
}

#[test]
fn find_by_name_and_id_pick_last_match() {
    let lib = TimbreLibrary::from_timbres(vec![
        make_timbre(1, "Same", vec!["x"]),
        make_timbre(1, "Same", vec!["y"]),
    ]);
    assert_eq!(lib.find_by_name("Same").unwrap().tags, vec!["y".to_string()]);
    assert_eq!(lib.find_by_id(&TimbreId::new(1)).unwrap().tags, vec!["y".to_string()]);
}

#[test]
fn find_by_tag_keeps_order() {
    let lib = TimbreLibrary::from_timbres(vec![
        make_timbre(1, "A", vec!["deep"]),
        make_timbre(2, "B", vec!["Deep"]),
        make_timbre(3, "C", vec!["deep", "male"]),
    ]);
    let exact: Vec<u64> = lib.find_by_tag("deep").iter().map(|t| t.id.get()).collect();
    assert_eq!(exact, vec![1, 3]);
    let ci: Vec<u64> = lib.find_by_tag_ci("DEEP").iter().map(|t| t.id.get()).collect();
    assert_eq!(ci, vec![1, 2, 3]);
}
