use playwire::controls::MediaControls;
use playwire::error::Error;

#[test]
fn new_passes_start_failure_through() {
    let r: Result<MediaControls<u8>, Error> = MediaControls::new(Err(Error::Unsupported));
    assert_eq!(r.err(), Some(Error::Unsupported));
}

#[test]
fn detach_is_idempotent() {
    let mut c = MediaControls::new(Ok(5u8)).ok().unwrap();
    assert!(c.is_attached());
    assert_eq!(c.publish_target().map(|b| *b), Some(5));
    if let Some(b) = c.publish_target() {
        *b = 6;
    }
    assert_eq!(c.detach(), Some(6));
    assert!(!c.is_attached());
    assert_eq!(c.detach(), None);
    assert!(c.publish_target().is_none());
}
