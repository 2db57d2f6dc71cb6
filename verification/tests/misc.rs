use core::ops::ControlFlow;

use jvmti::agent::start_code;
use jvmti::agent::IntoStartResult;
use jvmti::agent::StartResult;
use jvmti::errors::Error;
use jvmti::errors::SupportError;
use jvmti::errors::ThreadError;
use jvmti::events::notification_mode;
use jvmti::events::Event;
use jvmti::events::FieldValueKind;
use jvmti::events::NativeCode;
use jvmti::events::NativeCodeMut;
use jvmti::heap::array_length;
use jvmti::heap::FieldKind;
use jvmti::heap::InfoSource;
use jvmti::heap::PrimitiveType;
use jvmti::heap::ReferenceKind;
use jvmti::heap::ReferrerKind;
use jvmti::heap::TagRequest;
use jvmti::heap::VisitControl;
use jvmti::memory::allocation_request;
use jvmti::memory::JPtr;
use jvmti::nonzero::NonZeroI32;
use jvmti::nonzero::NonZeroI64;
use jvmti::property::property_writable;
use jvmti::thread::thread_results;
use jvmti::thread::ThreadPriority;

#[test]
fn priorities() {
    assert_eq!(ThreadPriority::MIN().raw(), 1);
    assert_eq!(ThreadPriority::NORMAL().raw(), 5);
    assert_eq!(ThreadPriority::MAX().raw(), 10);
    assert_eq!(ThreadPriority::default(), ThreadPriority::NORMAL());
    assert!(ThreadPriority::new(0).is_none());
    assert_eq!(ThreadPriority::new(1), Some(ThreadPriority::MIN()));
    assert_eq!(ThreadPriority::new(10), Some(ThreadPriority::MAX()));
    assert!(ThreadPriority::new(11).is_none());
    assert_eq!(ThreadPriority::new_unchecked(7).raw(), 7);
}

#[test]
fn results_of_thread_lists() {
    let res = thread_results(&[0, 13, 0, 300]);
    assert_eq!(res.len(), 4);
    assert_eq!(res[0], Ok(()));
    assert_eq!(res[1], Err(Error::Thread(ThreadError::NotSuspended)));
    assert_eq!(res[2], Ok(()));
    assert_eq!(res[3], Err(Error::try_from_code(44).ok().unwrap()));
    assert!(thread_results(&[]).is_empty());
}

#[test]
fn event_codes() {
    assert_eq!(Event::VmInit.code(), 50);
    assert_eq!(Event::VmDeath.code(), 51);
    assert_eq!(Event::SampledObjectAlloc.code(), 86);
    assert_eq!(Event::VirtualThreadEnd.code(), 88);
    assert!(matches!(Event::try_from_code(62), Ok(Event::Breakpoint)));
    assert!(Event::try_from_code(72).is_err());
    assert!(Event::try_from(85u32).is_err());
    assert_eq!(u32::from(Event::ResourceExhausted), 80);
    for code in 0u32..300 {
        if let Ok(e) = Event::try_from_code(code) {
            assert_eq!(e.code(), code);
        }
    }
}

#[test]
fn notification_modes() {
    assert_eq!(notification_mode(true), 1);
    assert_eq!(notification_mode(false), 0);
}

#[test]
fn native_code_addresses() {
    assert_eq!(NativeCode::new(0x1000).get(), 0x1000);
    assert_eq!(NativeCodeMut::new(0x2000).get(), 0x2000);
    assert_eq!(JPtr::<u8>::new(0x3000).raw(), 0x3000);
}

#[test]
fn tag_requests() {
    assert!(TagRequest::Objects.wants_objects());
    assert!(!TagRequest::Objects.wants_tags());
    assert!(!TagRequest::Tags.wants_objects());
    assert!(TagRequest::Tags.wants_tags());
    assert!(TagRequest::Both.wants_objects());
    assert!(TagRequest::Both.wants_tags());
}

#[test]
fn reference_kinds() {
    assert_eq!(ReferenceKind::Class.code(), 1);
    assert_eq!(ReferenceKind::Superclass.code(), 10);
    assert_eq!(ReferenceKind::JniGlobal.code(), 21);
    assert_eq!(ReferenceKind::Other.code(), 27);
    assert!(ReferenceKind::try_from_code(11).is_err());
    assert_eq!(FieldKind::of_reference(ReferenceKind::Field), Some(FieldKind::Instance));
    assert_eq!(FieldKind::of_reference(ReferenceKind::StaticField), Some(FieldKind::Static));
    assert_eq!(FieldKind::of_reference(ReferenceKind::Class), None);
    assert_eq!(ReferenceKind::Field.info_source(), InfoSource::FieldIndex);
    assert_eq!(ReferenceKind::StaticField.info_source(), InfoSource::FieldIndex);
    assert_eq!(ReferenceKind::ArrayElement.info_source(), InfoSource::ArrayIndex);
    assert_eq!(ReferenceKind::ConstantPool.info_source(), InfoSource::ConstantPoolIndex);
    assert_eq!(ReferenceKind::StackLocal.info_source(), InfoSource::StackLocal);
    assert_eq!(ReferenceKind::JniLocal.info_source(), InfoSource::JniLocal);
    assert_eq!(ReferenceKind::Thread.info_source(), InfoSource::Nothing);
}

#[test]
fn primitive_types() {
    assert!(matches!(PrimitiveType::try_from_code(90), Ok(PrimitiveType::Boolean)));
    assert!(matches!(PrimitiveType::try_from_code(74), Ok(PrimitiveType::Long)));
    assert!(matches!(PrimitiveType::try_from_code(68), Ok(PrimitiveType::Double)));
    assert!(PrimitiveType::try_from_code(76).is_err());
}

#[test]
fn referrers_and_lengths() {
    assert_eq!(ReferrerKind::classify(true, false), ReferrerKind::HeapRoot);
    assert_eq!(ReferrerKind::classify(true, true), ReferrerKind::HeapRoot);
    assert_eq!(ReferrerKind::classify(false, true), ReferrerKind::SelfReference);
    assert_eq!(ReferrerKind::classify(false, false), ReferrerKind::Object);
    assert_eq!(array_length(-1), None);
    assert_eq!(array_length(0), Some(0));
    assert_eq!(array_length(17), Some(17));
}

#[test]
fn visit_control_from_control_flow() {
    assert_eq!(VisitControl::from(ControlFlow::<()>::Continue(())), VisitControl::empty());
    assert_eq!(VisitControl::from(ControlFlow::<()>::Break(())), VisitControl::ABORT());
    assert_eq!(VisitControl::from(ControlFlow::<(), bool>::Continue(false)).bits(), 0);
    assert_eq!(VisitControl::from(ControlFlow::<(), bool>::Continue(true)), VisitControl::OBJECTS());
    assert_eq!(VisitControl::from(ControlFlow::<(), bool>::Break(())), VisitControl::ABORT());
}

#[test]
fn allocation_requests() {
    assert_eq!(allocation_request(0), None);
    assert_eq!(allocation_request(16), Some(16));
    assert_eq!(allocation_request(usize::MAX), Some(usize::MAX as i64));
}

#[test]
fn writable_properties() {
    assert_eq!(property_writable(Ok(())), Ok(true));
    assert_eq!(property_writable(Err(Error::Support(SupportError::NotAvailable))), Ok(false));
    let e = Error::Support(SupportError::MissingCapability);
    assert_eq!(property_writable(Err(e)), Err(e));
}

#[test]
fn start_results() {
    assert_eq!(().resolve(), Ok(()));
    assert_eq!(0i32.resolve(), Ok(()));
    assert_eq!(3i32.resolve(), Err(NonZeroI32::new(3).unwrap()));
    let r: StartResult = Err(NonZeroI32::new(-2).unwrap());
    assert_eq!(r.resolve(), r);
    for code in [-5i32, 0, 1, 42, i32::MIN, i32::MAX] {
        assert_eq!(start_code(code.resolve()), code);
    }
}

#[test]
fn non_zero_values() {
    assert!(NonZeroI64::new(0).is_none());
    assert_eq!(NonZeroI64::new(-9).unwrap().get(), -9);
    assert!(NonZeroI32::new(0).is_none());
}

#[test]
fn field_signatures() {
    assert_eq!(FieldValueKind::from_signature(b'Z'), Some(FieldValueKind::Primitive(PrimitiveType::Boolean)));
    assert_eq!(FieldValueKind::from_signature(b'J'), Some(FieldValueKind::Primitive(PrimitiveType::Long)));
    assert_eq!(FieldValueKind::from_signature(b'D'), Some(FieldValueKind::Primitive(PrimitiveType::Double)));
    assert_eq!(FieldValueKind::from_signature(b'L'), Some(FieldValueKind::Object));
    assert_eq!(FieldValueKind::from_signature(b'['), Some(FieldValueKind::Object));
    assert_eq!(FieldValueKind::from_signature(b'V'), None);
    assert_eq!(FieldValueKind::from_signature(b'X'), None);
}
