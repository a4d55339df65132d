use std::cell::RefCell;

use pcan_basic::error::PcanError;
use pcan_basic::hw::ChannelIdentifying;
use pcan_basic::trace::{
    set_default_trace_location, set_default_trace_size, SetTraceLocation, SetTraceSize,
};

struct Recorder {
    path: RefCell<Option<String>>,
    size: RefCell<Option<u8>>,
}

impl Recorder {
    fn new() -> Recorder {
        Recorder { path: RefCell::new(None), size: RefCell::new(None) }
    }
}

impl SetTraceLocation for Recorder {
    fn set_trace_location(&self, path: &str) -> Result<(), PcanError> {
        *self.path.borrow_mut() = Some(String::from(path));
        Ok(())
    }
}

impl SetTraceSize for Recorder {
    fn set_trace_size(&self, size_mb: u8) -> Result<(), PcanError> {
        *self.size.borrow_mut() = Some(size_mb);
        Ok(())
    }
}

struct Blinker {
    enabled: RefCell<Option<bool>>,
}

impl ChannelIdentifying for Blinker {
    fn enable_identifying(&self) -> Result<(), PcanError> {
        *self.enabled.borrow_mut() = Some(true);
        Ok(())
    }

    fn disable_identifying(&self) -> Result<(), PcanError> {
        *self.enabled.borrow_mut() = Some(false);
        Ok(())
    }

    fn set_channel_identifying(&self, value: bool) -> Result<(), PcanError> {
        self.identifying(value)
    }

    fn is_channel_identifying(&self) -> Result<bool, PcanError> {
        match *self.enabled.borrow() {
            Some(on) => Ok(on),
            None => Err(PcanError::Unknown),
        }
    }
}

#[test]
fn identifying_dispatches_on_its_argument() {
    let blinker = Blinker { enabled: RefCell::new(None) };
    assert_eq!(blinker.is_channel_identifying(), Err(PcanError::Unknown));
    assert_eq!(blinker.identifying(true), Ok(()));
    assert_eq!(blinker.is_channel_identifying(), Ok(true));
    assert_eq!(blinker.identifying(false), Ok(()));
    assert_eq!(blinker.is_channel_identifying(), Ok(false));
}

#[test]
fn the_default_trace_location_is_one_space() {
    let recorder = Recorder::new();
    assert_eq!(set_default_trace_location(&recorder), Ok(()));
    assert_eq!(*recorder.path.borrow(), Some(String::from(" ")));
}

#[test]
fn the_default_trace_size_is_zero() {
    let recorder = Recorder::new();
    assert_eq!(set_default_trace_size(&recorder), Ok(()));
    assert_eq!(*recorder.size.borrow(), Some(0));
}
