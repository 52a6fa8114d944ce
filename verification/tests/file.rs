use kernel_dumper::file::{after_release, File, OwnedFile, Release, Released};
use kernel_dumper::fw1100;
use std::sync::atomic::Ordering;

#[test]
fn release_of_one_of_two_owners_finalizes_nothing() {
    let file = fw1100::File::new(2);
    let owner = OwnedFile::new(&file);
    let released = owner.release();
    assert_eq!(released, Released { prior: 2, action: Release::Shared });
    assert_eq!(file.refcnt().load(Ordering::SeqCst), 1);
}

#[test]
fn release_of_the_last_owner_finalizes_once() {
    let file = fw1100::File::new(2);
    let first = OwnedFile::new(&file);
    let second = OwnedFile::new(&file);
    let mut finalized = 0;
    for owner in [first, second] {
        if owner.release().action == Release::Finalize {
            finalized += 1;
        }
    }
    assert_eq!(finalized, 1);
    assert_eq!(file.refcnt().load(Ordering::SeqCst), 0);
}

#[test]
fn taking_a_reference_over_does_not_count_it() {
    let file = fw1100::File::new(7);
    let owner = OwnedFile::new(&file);
    assert_eq!(file.refcnt().load(Ordering::SeqCst), 7);
    assert_eq!(owner.release().prior, 7);
    assert_eq!(file.refcnt().load(Ordering::SeqCst), 6);
}

#[test]
fn only_a_count_of_one_finalizes() {
    assert_eq!(after_release(1), Released { prior: 1, action: Release::Finalize });
    assert_eq!(after_release(2), Released { prior: 2, action: Release::Shared });
    assert_eq!(after_release(0), Released { prior: 0, action: Release::Shared });
    assert_eq!(after_release(u32::MAX), Released { prior: u32::MAX, action: Release::Shared });
}

#[test]
fn layout_of_the_build() {
    assert_eq!(fw1100::FILE_REFCNT, 0x28);
    assert_eq!(fw1100::THREAD_RETVAL, 0x398);
}
