use pincher_core::embedder::{Embedder, EMBED_DIM};

#[test]
fn embedder_dimension() {
    let e = Embedder::new().unwrap();
    assert_eq!(e.dimension(), EMBED_DIM);
    assert_eq!(EMBED_DIM, 256);
}

#[test]
fn trigrams_of_text() {
    assert_eq!(Embedder::extract_trigrams("hello"), vec!["hel", "ell", "llo"]);
    assert_eq!(Embedder::extract_trigrams("abc"), vec!["abc"]);
    assert_eq!(Embedder::extract_trigrams("ab"), vec!["ab"]);
    assert_eq!(Embedder::extract_trigrams(""), vec![""]);
    // Characters, not bytes.
    assert_eq!(Embedder::extract_trigrams("héllo"), vec!["hél", "éll", "llo"]);
}

#[test]
fn trigram_digest_is_sha256() {
    let h = Embedder::hash_trigram("abc");
    let hex: String = h.iter().map(|b| format!("{b:02x}")).collect();
    assert_eq!(hex, "ba7816bf8f01cfea414140de5dae2223b00361a396177a9cb410ff61f20015ad");
}
