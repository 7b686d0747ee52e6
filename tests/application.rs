use ones_core::application::Context;

const TEST_DB_PATH: &str = "test.db";
const TEST_CACHE_DIR: &str = "test_cache";

#[test]
fn test_new() {
    let context = Context::new(TEST_DB_PATH, TEST_CACHE_DIR);

    assert_eq!(context.db_path(), TEST_DB_PATH);
    assert_eq!(context.cache_dir(), TEST_CACHE_DIR);
}
