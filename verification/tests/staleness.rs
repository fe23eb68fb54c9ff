//! Modification-time comparison and the chunk-size configuration.

use wallheat::config::{chunk_size_for_label, ConfigError};
use wallheat::modification::{max_duration, min_duration, was_modified, ModificationError};

#[test]
fn min_of_present_files() {
    assert_eq!(min_duration(&vec![Some(5), Some(3), Some(9)]), 3);
    assert_eq!(min_duration(&vec![]), u128::MAX);
}

#[test]
fn missing_result_counts_as_oldest() {
    assert_eq!(min_duration(&vec![Some(5), None, Some(9)]), 0);
}

#[test]
fn max_of_present_files() {
    assert_eq!(max_duration(&vec![Some(5), Some(3), Some(9)]), Ok(9));
    assert_eq!(max_duration(&vec![]), Ok(0));
    assert_eq!(
        max_duration(&vec![Some(5), None]),
        Err(ModificationError::MissingFile)
    );
}

#[test]
fn stale_when_a_source_is_newer() {
    // Oldest result at 10, newest source at 12: stale.
    assert_eq!(
        was_modified(&vec![Some(4), Some(12)], &vec![Some(10), Some(30)]),
        Ok(true)
    );
    // Newest source at 8: fresh.
    assert_eq!(
        was_modified(&vec![Some(4), Some(8)], &vec![Some(10), Some(30)]),
        Ok(false)
    );
    // A missing result is always stale.
    assert_eq!(
        was_modified(&vec![Some(4)], &vec![None, Some(30)]),
        Ok(true)
    );
    // A missing source is an error.
    assert_eq!(
        was_modified(&vec![None], &vec![Some(10)]),
        Err(ModificationError::MissingFile)
    );
}

#[test]
fn chunk_size_lookup() {
    let content = b"# machines\nlaptop = 16384\n  desktop=65536  \nbroken = lots\n";
    assert_eq!(chunk_size_for_label(content, b"laptop"), Ok(16384));
    assert_eq!(chunk_size_for_label(content, b"desktop"), Ok(65536));
    assert_eq!(
        chunk_size_for_label(content, b"server"),
        Err(ConfigError::MissingLabel)
    );
    assert_eq!(
        chunk_size_for_label(content, b"broken"),
        Err(ConfigError::BadNumber)
    );
}

#[test]
fn lookup_takes_the_first_entry_and_ignores_comments() {
    let content = b"# laptop = 1\nlaptop = 2\nlaptop = 3";
    assert_eq!(chunk_size_for_label(content, b"laptop"), Ok(2));
    // Only the text between the first two equals signs counts.
    let twisted = b"label = 7 = 9";
    assert_eq!(chunk_size_for_label(twisted, b"label"), Ok(7));
    let empty = b"";
    assert_eq!(
        chunk_size_for_label(empty, b"laptop"),
        Err(ConfigError::MissingLabel)
    );
}
