//! Hub construction, policy, teardown and resource accounting.

use myo::Hub;
use myo::LockingPolicy;
use myo::ResultCode;
use myo::Runtime;

#[test]
fn initialize_with_valid_id_returns_hub() {
    let mut rt = Runtime::new();
    let hub = Hub::initialize(&mut rt, b"com.example.hello-world").unwrap();
    assert_ne!(hub.raw_handle(), 0);
    assert_eq!(rt.live_count(), 1);
}

#[test]
fn initialize_with_malformed_id_is_invalid_argument() {
    let mut rt = Runtime::new();
    let err = Hub::initialize(&mut rt, b"com.example").unwrap_err();
    assert_eq!(err.kind(), ResultCode::ErrorInvalidArgument);
    assert_eq!(err.message(), "invalid argument: malformed application identifier");
    assert_eq!(rt.live_count(), 0);
    err.free();
}

#[test]
fn second_live_hub_is_runtime_error() {
    let mut rt = Runtime::new();
    let _hub = Hub::initialize(&mut rt, b"com.example.one").unwrap();
    let err = Hub::initialize(&mut rt, b"com.example.two").unwrap_err();
    assert_eq!(err.kind(), ResultCode::Runtime);
    assert_eq!(rt.live_count(), 1);
    err.free();
}

#[test]
fn release_returns_resource_count_to_zero() {
    let mut rt = Runtime::new();
    assert_eq!(rt.live_count(), 0);
    let hub = Hub::initialize(&mut rt, b"com.example.app").unwrap();
    assert_eq!(rt.live_count(), 1);
    hub.release(&mut rt).unwrap();
    assert_eq!(rt.live_count(), 0);
}

#[test]
fn successive_hubs_get_distinct_handles() {
    let mut rt = Runtime::new();
    let first = Hub::initialize(&mut rt, b"com.example.app").unwrap();
    let first_handle = first.raw_handle();
    first.release(&mut rt).unwrap();
    let second = Hub::initialize(&mut rt, b"com.example.app").unwrap();
    assert_ne!(second.raw_handle(), first_handle);
}

#[test]
fn release_against_foreign_runtime_is_error() {
    let mut rt = Runtime::new();
    let hub = Hub::initialize(&mut rt, b"com.example.app").unwrap();
    let mut other = Runtime::new();
    let err = hub.release(&mut other).unwrap_err();
    assert_eq!(err.kind(), ResultCode::Error);
    assert_eq!(err.message(), "error: not a valid hub");
    assert_eq!(rt.live_count(), 1);
    err.free();
}

#[test]
fn set_locking_policy_takes_effect() {
    let mut rt = Runtime::new();
    let hub = Hub::initialize(&mut rt, b"com.example.app").unwrap();
    assert_eq!(rt.locking_policy(), LockingPolicy::Standard);
    hub.set_locking_policy(&mut rt, LockingPolicy::Disabled).unwrap();
    assert_eq!(rt.locking_policy(), LockingPolicy::Disabled);
}

#[test]
fn set_locking_policy_on_foreign_runtime_is_error() {
    let mut rt = Runtime::new();
    let hub = Hub::initialize(&mut rt, b"com.example.app").unwrap();
    let mut other = Runtime::new();
    let err = hub.set_locking_policy(&mut other, LockingPolicy::Disabled).unwrap_err();
    assert_eq!(err.kind(), ResultCode::Error);
    assert_eq!(other.locking_policy(), LockingPolicy::Standard);
    err.free();
}
