use crates_io_proxy::index_entry::IndexEntry;
use crates_io_proxy::metadata_cache::{
    metadata_fetch_index_entry, metadata_invalidate_index_entry, metadata_store_index_entry,
    MetadataCache,
};

#[test]
fn store_fetch_invalidate() {
    let mut cache = MetadataCache::new();
    assert_eq!(metadata_fetch_index_entry(&cache, "serde"), None);

    let mut e = IndexEntry::new("serde");
    e.set_etag("\"e1\"");
    metadata_store_index_entry(&mut cache, &e);
    metadata_store_index_entry(&mut cache, &IndexEntry::new("rand"));
    assert_eq!(metadata_fetch_index_entry(&cache, "serde"), Some(e.clone()));

    let mut e2 = IndexEntry::new("serde");
    e2.set_etag("\"e2\"");
    metadata_store_index_entry(&mut cache, &e2);
    assert_eq!(metadata_fetch_index_entry(&cache, "serde"), Some(e2.clone()));
    assert_eq!(metadata_fetch_index_entry(&cache, "rand"), Some(IndexEntry::new("rand")));

    metadata_invalidate_index_entry(&mut cache, &e2);
    assert_eq!(metadata_fetch_index_entry(&cache, "serde"), None);
    assert_eq!(metadata_fetch_index_entry(&cache, "rand"), Some(IndexEntry::new("rand")));
    metadata_invalidate_index_entry(&mut cache, &e2);
    assert_eq!(metadata_fetch_index_entry(&cache, "serde"), None);
}
