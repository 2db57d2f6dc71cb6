use jvmti::errors::Error;
use jvmti::errors::InvalidVariant;
use jvmti::errors::UniversalError;
use jvmti::errors::ThreadError;
use jvmti::errors::ClassError;
use jvmti::errors::DataError;
use jvmti::errors::SupportError;
use jvmti::errors::MonitorError;
use jvmti::errors::FrameError;
use jvmti::errors::ItemError;

#[test]
fn universalerror_codes_and_messages() {
    assert_eq!(UniversalError::kind_message(), "General JVMTI failure");
    assert_eq!(UniversalError::NullPointer.code(), 100);
    assert_eq!(u32::from(UniversalError::NullPointer), 100);
    assert!(matches!(UniversalError::try_from_code(100), Ok(UniversalError::NullPointer)));
    assert!(matches!(UniversalError::try_from(100u32), Ok(UniversalError::NullPointer)));
    assert_eq!(UniversalError::NullPointer.message(), "Pointer is unexpectedly null");
    assert_eq!(Error::code_to_result(100), Err(Error::Universal(UniversalError::NullPointer)));
    assert_eq!(Error::from(UniversalError::NullPointer).code(), 100);
    assert_eq!(Error::Universal(UniversalError::NullPointer).to_string(), "General JVMTI failure");
    assert_eq!(UniversalError::OutOfMemory.code(), 110);
    assert_eq!(u32::from(UniversalError::OutOfMemory), 110);
    assert!(matches!(UniversalError::try_from_code(110), Ok(UniversalError::OutOfMemory)));
    assert!(matches!(UniversalError::try_from(110u32), Ok(UniversalError::OutOfMemory)));
    assert_eq!(UniversalError::OutOfMemory.message(), "The function attempted to allocate memory and no more memory was available for allocation");
    assert_eq!(Error::code_to_result(110), Err(Error::Universal(UniversalError::OutOfMemory)));
    assert_eq!(Error::from(UniversalError::OutOfMemory).code(), 110);
    assert_eq!(Error::Universal(UniversalError::OutOfMemory).to_string(), "General JVMTI failure");
    assert_eq!(UniversalError::AccessDenied.code(), 111);
    assert_eq!(u32::from(UniversalError::AccessDenied), 111);
    assert!(matches!(UniversalError::try_from_code(111), Ok(UniversalError::AccessDenied)));
    assert!(matches!(UniversalError::try_from(111u32), Ok(UniversalError::AccessDenied)));
    assert_eq!(UniversalError::AccessDenied.message(), "The desired functionality has not been enabled in this virtual machine");
    assert_eq!(Error::code_to_result(111), Err(Error::Universal(UniversalError::AccessDenied)));
    assert_eq!(Error::from(UniversalError::AccessDenied).code(), 111);
    assert_eq!(Error::Universal(UniversalError::AccessDenied).to_string(), "General JVMTI failure");
    assert_eq!(UniversalError::UnattachedThread.code(), 115);
    assert_eq!(u32::from(UniversalError::UnattachedThread), 115);
    assert!(matches!(UniversalError::try_from_code(115), Ok(UniversalError::UnattachedThread)));
    assert!(matches!(UniversalError::try_from(115u32), Ok(UniversalError::UnattachedThread)));
    assert_eq!(UniversalError::UnattachedThread.message(), "The thread being used to call this function is not attached to the virtual machine");
    assert_eq!(Error::code_to_result(115), Err(Error::Universal(UniversalError::UnattachedThread)));
    assert_eq!(Error::from(UniversalError::UnattachedThread).code(), 115);
    assert_eq!(Error::Universal(UniversalError::UnattachedThread).to_string(), "General JVMTI failure");
    assert_eq!(UniversalError::InvalidEnvironment.code(), 116);
    assert_eq!(u32::from(UniversalError::InvalidEnvironment), 116);
    assert!(matches!(UniversalError::try_from_code(116), Ok(UniversalError::InvalidEnvironment)));
    assert!(matches!(UniversalError::try_from(116u32), Ok(UniversalError::InvalidEnvironment)));
    assert_eq!(UniversalError::InvalidEnvironment.message(), "The JVM TI environment provided is no longer connected or is not an environment");
    assert_eq!(Error::code_to_result(116), Err(Error::Universal(UniversalError::InvalidEnvironment)));
    assert_eq!(Error::from(UniversalError::InvalidEnvironment).code(), 116);
    assert_eq!(Error::Universal(UniversalError::InvalidEnvironment).to_string(), "General JVMTI failure");
    assert_eq!(UniversalError::WrongPhase.code(), 112);
    assert_eq!(u32::from(UniversalError::WrongPhase), 112);
    assert!(matches!(UniversalError::try_from_code(112), Ok(UniversalError::WrongPhase)));
    assert!(matches!(UniversalError::try_from(112u32), Ok(UniversalError::WrongPhase)));
    assert_eq!(UniversalError::WrongPhase.message(), "The desired functionality is not available in the current phase");
    assert_eq!(Error::code_to_result(112), Err(Error::Universal(UniversalError::WrongPhase)));
    assert_eq!(Error::from(UniversalError::WrongPhase).code(), 112);
    assert_eq!(Error::Universal(UniversalError::WrongPhase).to_string(), "General JVMTI failure");
    assert_eq!(UniversalError::Internal.code(), 113);
    assert_eq!(u32::from(UniversalError::Internal), 113);
    assert!(matches!(UniversalError::try_from_code(113), Ok(UniversalError::Internal)));
    assert!(matches!(UniversalError::try_from(113u32), Ok(UniversalError::Internal)));
    assert_eq!(UniversalError::Internal.message(), "An unexpected internal error has occurred");
    assert_eq!(Error::code_to_result(113), Err(Error::Universal(UniversalError::Internal)));
    assert_eq!(Error::from(UniversalError::Internal).code(), 113);
    assert_eq!(Error::Universal(UniversalError::Internal).to_string(), "General JVMTI failure");
    assert!(matches!(UniversalError::try_from_code(0), Err(InvalidVariant(0))));
    assert!(matches!(UniversalError::try_from_code(255), Err(InvalidVariant(255))));
}

#[test]
fn threaderror_codes_and_messages() {
    assert_eq!(ThreadError::kind_message(), "Thread error");
    assert_eq!(ThreadError::NotSuspended.code(), 13);
    assert_eq!(u32::from(ThreadError::NotSuspended), 13);
    assert!(matches!(ThreadError::try_from_code(13), Ok(ThreadError::NotSuspended)));
    assert!(matches!(ThreadError::try_from(13u32), Ok(ThreadError::NotSuspended)));
    assert_eq!(ThreadError::NotSuspended.message(), "Thread was not suspended");
    assert_eq!(Error::code_to_result(13), Err(Error::Thread(ThreadError::NotSuspended)));
    assert_eq!(Error::from(ThreadError::NotSuspended).code(), 13);
    assert_eq!(Error::Thread(ThreadError::NotSuspended).to_string(), "Thread error");
    assert_eq!(ThreadError::Suspended.code(), 14);
    assert_eq!(u32::from(ThreadError::Suspended), 14);
    assert!(matches!(ThreadError::try_from_code(14), Ok(ThreadError::Suspended)));
    assert!(matches!(ThreadError::try_from(14u32), Ok(ThreadError::Suspended)));
    assert_eq!(ThreadError::Suspended.message(), "Thread already suspended");
    assert_eq!(Error::code_to_result(14), Err(Error::Thread(ThreadError::Suspended)));
    assert_eq!(Error::from(ThreadError::Suspended).code(), 14);
    assert_eq!(Error::Thread(ThreadError::Suspended).to_string(), "Thread error");
    assert_eq!(ThreadError::NotAlive.code(), 15);
    assert_eq!(u32::from(ThreadError::NotAlive), 15);
    assert!(matches!(ThreadError::try_from_code(15), Ok(ThreadError::NotAlive)));
    assert!(matches!(ThreadError::try_from(15u32), Ok(ThreadError::NotAlive)));
    assert_eq!(ThreadError::NotAlive.message(), "This operation requires the thread to be alive");
    assert_eq!(Error::code_to_result(15), Err(Error::Thread(ThreadError::NotAlive)));
    assert_eq!(Error::from(ThreadError::NotAlive).code(), 15);
    assert_eq!(Error::Thread(ThreadError::NotAlive).to_string(), "Thread error");
    assert_eq!(ThreadError::InvalidTypestate.code(), 65);
    assert_eq!(u32::from(ThreadError::InvalidTypestate), 65);
    assert!(matches!(ThreadError::try_from_code(65), Ok(ThreadError::InvalidTypestate)));
    assert!(matches!(ThreadError::try_from(65u32), Ok(ThreadError::InvalidTypestate)));
    assert_eq!(ThreadError::InvalidTypestate.message(), "The state of the thread has been modified, and is now inconsistent");
    assert_eq!(Error::code_to_result(65), Err(Error::Thread(ThreadError::InvalidTypestate)));
    assert_eq!(Error::from(ThreadError::InvalidTypestate).code(), 65);
    assert_eq!(Error::Thread(ThreadError::InvalidTypestate).to_string(), "Thread error");
    assert!(matches!(ThreadError::try_from_code(0), Err(InvalidVariant(0))));
    assert!(matches!(ThreadError::try_from_code(255), Err(InvalidVariant(255))));
}

#[test]
fn classerror_codes_and_messages() {
    assert_eq!(ClassError::kind_message(), "Class (re)definition error");
    assert_eq!(ClassError::InvalidFormat.code(), 60);
    assert_eq!(u32::from(ClassError::InvalidFormat), 60);
    assert!(matches!(ClassError::try_from_code(60), Ok(ClassError::InvalidFormat)));
    assert!(matches!(ClassError::try_from(60u32), Ok(ClassError::InvalidFormat)));
    assert_eq!(ClassError::InvalidFormat.message(), "A new class file is malformed (the VM would return a ClassFormatError)");
    assert_eq!(Error::code_to_result(60), Err(Error::Class(ClassError::InvalidFormat)));
    assert_eq!(Error::from(ClassError::InvalidFormat).code(), 60);
    assert_eq!(Error::Class(ClassError::InvalidFormat).to_string(), "Class (re)definition error");
    assert_eq!(ClassError::CircularDefinition.code(), 61);
    assert_eq!(u32::from(ClassError::CircularDefinition), 61);
    assert!(matches!(ClassError::try_from_code(61), Ok(ClassError::CircularDefinition)));
    assert!(matches!(ClassError::try_from(61u32), Ok(ClassError::CircularDefinition)));
    assert_eq!(ClassError::CircularDefinition.message(), "The new class file definitions would lead to a circular definition (the VM would return a ClassCircularityError)");
    assert_eq!(Error::code_to_result(61), Err(Error::Class(ClassError::CircularDefinition)));
    assert_eq!(Error::from(ClassError::CircularDefinition).code(), 61);
    assert_eq!(Error::Class(ClassError::CircularDefinition).to_string(), "Class (re)definition error");
    assert_eq!(ClassError::FailsVerification.code(), 62);
    assert_eq!(u32::from(ClassError::FailsVerification), 62);
    assert!(matches!(ClassError::try_from_code(62), Ok(ClassError::FailsVerification)));
    assert!(matches!(ClassError::try_from(62u32), Ok(ClassError::FailsVerification)));
    assert_eq!(ClassError::FailsVerification.message(), "The class bytes fail verification");
    assert_eq!(Error::code_to_result(62), Err(Error::Class(ClassError::FailsVerification)));
    assert_eq!(Error::from(ClassError::FailsVerification).code(), 62);
    assert_eq!(Error::Class(ClassError::FailsVerification).to_string(), "Class (re)definition error");
    assert_eq!(ClassError::UnsupportedVersion.code(), 68);
    assert_eq!(u32::from(ClassError::UnsupportedVersion), 68);
    assert!(matches!(ClassError::try_from_code(68), Ok(ClassError::UnsupportedVersion)));
    assert!(matches!(ClassError::try_from(68u32), Ok(ClassError::UnsupportedVersion)));
    assert_eq!(ClassError::UnsupportedVersion.message(), "A new class file has a version number not supported by this VM");
    assert_eq!(Error::code_to_result(68), Err(Error::Class(ClassError::UnsupportedVersion)));
    assert_eq!(Error::from(ClassError::UnsupportedVersion).code(), 68);
    assert_eq!(Error::Class(ClassError::UnsupportedVersion).to_string(), "Class (re)definition error");
    assert_eq!(ClassError::NotPrepared.code(), 22);
    assert_eq!(u32::from(ClassError::NotPrepared), 22);
    assert!(matches!(ClassError::try_from_code(22), Ok(ClassError::NotPrepared)));
    assert!(matches!(ClassError::try_from(22u32), Ok(ClassError::NotPrepared)));
    assert_eq!(ClassError::NotPrepared.message(), "The class has been loaded but not yet prepared");
    assert_eq!(Error::code_to_result(22), Err(Error::Class(ClassError::NotPrepared)));
    assert_eq!(Error::from(ClassError::NotPrepared).code(), 22);
    assert_eq!(Error::Class(ClassError::NotPrepared).to_string(), "Class (re)definition error");
    assert_eq!(ClassError::NamesDontMatch.code(), 69);
    assert_eq!(u32::from(ClassError::NamesDontMatch), 69);
    assert!(matches!(ClassError::try_from_code(69), Ok(ClassError::NamesDontMatch)));
    assert!(matches!(ClassError::try_from(69u32), Ok(ClassError::NamesDontMatch)));
    assert_eq!(ClassError::NamesDontMatch.message(), "The class name defined in the new class file is different from the name in the old class object");
    assert_eq!(Error::code_to_result(69), Err(Error::Class(ClassError::NamesDontMatch)));
    assert_eq!(Error::from(ClassError::NamesDontMatch).code(), 69);
    assert_eq!(Error::Class(ClassError::NamesDontMatch).to_string(), "Class (re)definition error");
    assert_eq!(ClassError::UnmodifiableClass.code(), 79);
    assert_eq!(u32::from(ClassError::UnmodifiableClass), 79);
    assert!(matches!(ClassError::try_from_code(79), Ok(ClassError::UnmodifiableClass)));
    assert!(matches!(ClassError::try_from(79u32), Ok(ClassError::UnmodifiableClass)));
    assert_eq!(ClassError::UnmodifiableClass.message(), "The class cannot be modified");
    assert_eq!(Error::code_to_result(79), Err(Error::Class(ClassError::UnmodifiableClass)));
    assert_eq!(Error::from(ClassError::UnmodifiableClass).code(), 79);
    assert_eq!(Error::Class(ClassError::UnmodifiableClass).to_string(), "Class (re)definition error");
    assert_eq!(ClassError::UnmodifiableModule.code(), 80);
    assert_eq!(u32::from(ClassError::UnmodifiableModule), 80);
    assert!(matches!(ClassError::try_from_code(80), Ok(ClassError::UnmodifiableModule)));
    assert!(matches!(ClassError::try_from(80u32), Ok(ClassError::UnmodifiableModule)));
    assert_eq!(ClassError::UnmodifiableModule.message(), "The module cannot be modified");
    assert_eq!(Error::code_to_result(80), Err(Error::Class(ClassError::UnmodifiableModule)));
    assert_eq!(Error::from(ClassError::UnmodifiableModule).code(), 80);
    assert_eq!(Error::Class(ClassError::UnmodifiableModule).to_string(), "Class (re)definition error");
    assert_eq!(ClassError::MethodAdded.code(), 63);
    assert_eq!(u32::from(ClassError::MethodAdded), 63);
    assert!(matches!(ClassError::try_from_code(63), Ok(ClassError::MethodAdded)));
    assert!(matches!(ClassError::try_from(63u32), Ok(ClassError::MethodAdded)));
    assert_eq!(ClassError::MethodAdded.message(), "A new class file would require adding a method");
    assert_eq!(Error::code_to_result(63), Err(Error::Class(ClassError::MethodAdded)));
    assert_eq!(Error::from(ClassError::MethodAdded).code(), 63);
    assert_eq!(Error::Class(ClassError::MethodAdded).to_string(), "Class (re)definition error");
    assert_eq!(ClassError::MethodDeleted.code(), 67);
    assert_eq!(u32::from(ClassError::MethodDeleted), 67);
    assert!(matches!(ClassError::try_from_code(67), Ok(ClassError::MethodDeleted)));
    assert!(matches!(ClassError::try_from(67u32), Ok(ClassError::MethodDeleted)));
    assert_eq!(ClassError::MethodDeleted.message(), "A new class version does not declare a method declared in the old class version");
    assert_eq!(Error::code_to_result(67), Err(Error::Class(ClassError::MethodDeleted)));
    assert_eq!(Error::from(ClassError::MethodDeleted).code(), 67);
    assert_eq!(Error::Class(ClassError::MethodDeleted).to_string(), "Class (re)definition error");
    assert_eq!(ClassError::SchemaChanged.code(), 64);
    assert_eq!(u32::from(ClassError::SchemaChanged), 64);
    assert!(matches!(ClassError::try_from_code(64), Ok(ClassError::SchemaChanged)));
    assert!(matches!(ClassError::try_from(64u32), Ok(ClassError::SchemaChanged)));
    assert_eq!(ClassError::SchemaChanged.message(), "A new class version changes a field");
    assert_eq!(Error::code_to_result(64), Err(Error::Class(ClassError::SchemaChanged)));
    assert_eq!(Error::from(ClassError::SchemaChanged).code(), 64);
    assert_eq!(Error::Class(ClassError::SchemaChanged).to_string(), "Class (re)definition error");
    assert_eq!(ClassError::HierarchyChanged.code(), 66);
    assert_eq!(u32::from(ClassError::HierarchyChanged), 66);
    assert!(matches!(ClassError::try_from_code(66), Ok(ClassError::HierarchyChanged)));
    assert!(matches!(ClassError::try_from(66u32), Ok(ClassError::HierarchyChanged)));
    assert_eq!(ClassError::HierarchyChanged.message(), "A direct superclass is different for the new class version, or the set of directly implemented interfaces is different");
    assert_eq!(Error::code_to_result(66), Err(Error::Class(ClassError::HierarchyChanged)));
    assert_eq!(Error::from(ClassError::HierarchyChanged).code(), 66);
    assert_eq!(Error::Class(ClassError::HierarchyChanged).to_string(), "Class (re)definition error");
    assert_eq!(ClassError::ClassModifiersChanged.code(), 70);
    assert_eq!(u32::from(ClassError::ClassModifiersChanged), 70);
    assert!(matches!(ClassError::try_from_code(70), Ok(ClassError::ClassModifiersChanged)));
    assert!(matches!(ClassError::try_from(70u32), Ok(ClassError::ClassModifiersChanged)));
    assert_eq!(ClassError::ClassModifiersChanged.message(), "A new class version has different modifiers");
    assert_eq!(Error::code_to_result(70), Err(Error::Class(ClassError::ClassModifiersChanged)));
    assert_eq!(Error::from(ClassError::ClassModifiersChanged).code(), 70);
    assert_eq!(Error::Class(ClassError::ClassModifiersChanged).to_string(), "Class (re)definition error");
    assert_eq!(ClassError::MethodModifiersChanged.code(), 71);
    assert_eq!(u32::from(ClassError::MethodModifiersChanged), 71);
    assert!(matches!(ClassError::try_from_code(71), Ok(ClassError::MethodModifiersChanged)));
    assert!(matches!(ClassError::try_from(71u32), Ok(ClassError::MethodModifiersChanged)));
    assert_eq!(ClassError::MethodModifiersChanged.message(), "A method in the new class version has different modifiers than its counterpart in the old class version");
    assert_eq!(Error::code_to_result(71), Err(Error::Class(ClassError::MethodModifiersChanged)));
    assert_eq!(Error::from(ClassError::MethodModifiersChanged).code(), 71);
    assert_eq!(Error::Class(ClassError::MethodModifiersChanged).to_string(), "Class (re)definition error");
    assert_eq!(ClassError::ClassAttributeChanged.code(), 72);
    assert_eq!(u32::from(ClassError::ClassAttributeChanged), 72);
    assert!(matches!(ClassError::try_from_code(72), Ok(ClassError::ClassAttributeChanged)));
    assert!(matches!(ClassError::try_from(72u32), Ok(ClassError::ClassAttributeChanged)));
    assert_eq!(ClassError::ClassAttributeChanged.message(), "A new class version has unsupported differences in class attributes");
    assert_eq!(Error::code_to_result(72), Err(Error::Class(ClassError::ClassAttributeChanged)));
    assert_eq!(Error::from(ClassError::ClassAttributeChanged).code(), 72);
    assert_eq!(Error::Class(ClassError::ClassAttributeChanged).to_string(), "Class (re)definition error");
    assert!(matches!(ClassError::try_from_code(0), Err(InvalidVariant(0))));
    assert!(matches!(ClassError::try_from_code(255), Err(InvalidVariant(255))));
}

#[test]
fn dataerror_codes_and_messages() {
    assert_eq!(DataError::kind_message(), "Invalid JVMTI object data");
    assert_eq!(DataError::Thread.code(), 10);
    assert_eq!(u32::from(DataError::Thread), 10);
    assert!(matches!(DataError::try_from_code(10), Ok(DataError::Thread)));
    assert!(matches!(DataError::try_from(10u32), Ok(DataError::Thread)));
    assert_eq!(DataError::Thread.message(), "Invalid thread");
    assert_eq!(Error::code_to_result(10), Err(Error::Data(DataError::Thread)));
    assert_eq!(Error::from(DataError::Thread).code(), 10);
    assert_eq!(Error::Data(DataError::Thread).to_string(), "Invalid JVMTI object data");
    assert_eq!(DataError::ThreadGroup.code(), 11);
    assert_eq!(u32::from(DataError::ThreadGroup), 11);
    assert!(matches!(DataError::try_from_code(11), Ok(DataError::ThreadGroup)));
    assert!(matches!(DataError::try_from(11u32), Ok(DataError::ThreadGroup)));
    assert_eq!(DataError::ThreadGroup.message(), "Invalid thread jenum");
    assert_eq!(Error::code_to_result(11), Err(Error::Data(DataError::ThreadGroup)));
    assert_eq!(Error::from(DataError::ThreadGroup).code(), 11);
    assert_eq!(Error::Data(DataError::ThreadGroup).to_string(), "Invalid JVMTI object data");
    assert_eq!(DataError::ThreadPriority.code(), 12);
    assert_eq!(u32::from(DataError::ThreadPriority), 12);
    assert!(matches!(DataError::try_from_code(12), Ok(DataError::ThreadPriority)));
    assert!(matches!(DataError::try_from(12u32), Ok(DataError::ThreadPriority)));
    assert_eq!(DataError::ThreadPriority.message(), "Invalid thread priority");
    assert_eq!(Error::code_to_result(12), Err(Error::Data(DataError::ThreadPriority)));
    assert_eq!(Error::from(DataError::ThreadPriority).code(), 12);
    assert_eq!(Error::Data(DataError::ThreadPriority).to_string(), "Invalid JVMTI object data");
    assert_eq!(DataError::Monitor.code(), 50);
    assert_eq!(u32::from(DataError::Monitor), 50);
    assert!(matches!(DataError::try_from_code(50), Ok(DataError::Monitor)));
    assert!(matches!(DataError::try_from(50u32), Ok(DataError::Monitor)));
    assert_eq!(DataError::Monitor.message(), "Invalid raw monitor");
    assert_eq!(Error::code_to_result(50), Err(Error::Data(DataError::Monitor)));
    assert_eq!(Error::from(DataError::Monitor).code(), 50);
    assert_eq!(Error::Data(DataError::Monitor).to_string(), "Invalid JVMTI object data");
    assert_eq!(DataError::FieldID.code(), 25);
    assert_eq!(u32::from(DataError::FieldID), 25);
    assert!(matches!(DataError::try_from_code(25), Ok(DataError::FieldID)));
    assert!(matches!(DataError::try_from(25u32), Ok(DataError::FieldID)));
    assert_eq!(DataError::FieldID.message(), "Invalid field");
    assert_eq!(Error::code_to_result(25), Err(Error::Data(DataError::FieldID)));
    assert_eq!(Error::from(DataError::FieldID).code(), 25);
    assert_eq!(Error::Data(DataError::FieldID).to_string(), "Invalid JVMTI object data");
    assert_eq!(DataError::MethodID.code(), 23);
    assert_eq!(u32::from(DataError::MethodID), 23);
    assert!(matches!(DataError::try_from_code(23), Ok(DataError::MethodID)));
    assert!(matches!(DataError::try_from(23u32), Ok(DataError::MethodID)));
    assert_eq!(DataError::MethodID.message(), "Invalid method");
    assert_eq!(Error::code_to_result(23), Err(Error::Data(DataError::MethodID)));
    assert_eq!(Error::from(DataError::MethodID).code(), 23);
    assert_eq!(Error::Data(DataError::MethodID).to_string(), "Invalid JVMTI object data");
    assert_eq!(DataError::Module.code(), 26);
    assert_eq!(u32::from(DataError::Module), 26);
    assert!(matches!(DataError::try_from_code(26), Ok(DataError::Module)));
    assert!(matches!(DataError::try_from(26u32), Ok(DataError::Module)));
    assert_eq!(DataError::Module.message(), "Invalid module");
    assert_eq!(Error::code_to_result(26), Err(Error::Data(DataError::Module)));
    assert_eq!(Error::from(DataError::Module).code(), 26);
    assert_eq!(Error::Data(DataError::Module).to_string(), "Invalid JVMTI object data");
    assert_eq!(DataError::Location.code(), 24);
    assert_eq!(u32::from(DataError::Location), 24);
    assert!(matches!(DataError::try_from_code(24), Ok(DataError::Location)));
    assert!(matches!(DataError::try_from(24u32), Ok(DataError::Location)));
    assert_eq!(DataError::Location.message(), "Invalid location");
    assert_eq!(Error::code_to_result(24), Err(Error::Data(DataError::Location)));
    assert_eq!(Error::from(DataError::Location).code(), 24);
    assert_eq!(Error::Data(DataError::Location).to_string(), "Invalid JVMTI object data");
    assert_eq!(DataError::Object.code(), 20);
    assert_eq!(u32::from(DataError::Object), 20);
    assert!(matches!(DataError::try_from_code(20), Ok(DataError::Object)));
    assert!(matches!(DataError::try_from(20u32), Ok(DataError::Object)));
    assert_eq!(DataError::Object.message(), "Invalid object");
    assert_eq!(Error::code_to_result(20), Err(Error::Data(DataError::Object)));
    assert_eq!(Error::from(DataError::Object).code(), 20);
    assert_eq!(Error::Data(DataError::Object).to_string(), "Invalid JVMTI object data");
    assert_eq!(DataError::Class.code(), 21);
    assert_eq!(u32::from(DataError::Class), 21);
    assert!(matches!(DataError::try_from_code(21), Ok(DataError::Class)));
    assert!(matches!(DataError::try_from(21u32), Ok(DataError::Class)));
    assert_eq!(DataError::Class.message(), "Invalid class");
    assert_eq!(Error::code_to_result(21), Err(Error::Data(DataError::Class)));
    assert_eq!(Error::from(DataError::Class).code(), 21);
    assert_eq!(Error::Data(DataError::Class).to_string(), "Invalid JVMTI object data");
    assert_eq!(DataError::Slot.code(), 35);
    assert_eq!(u32::from(DataError::Slot), 35);
    assert!(matches!(DataError::try_from_code(35), Ok(DataError::Slot)));
    assert!(matches!(DataError::try_from(35u32), Ok(DataError::Slot)));
    assert_eq!(DataError::Slot.message(), "Invalid slot");
    assert_eq!(Error::code_to_result(35), Err(Error::Data(DataError::Slot)));
    assert_eq!(Error::from(DataError::Slot).code(), 35);
    assert_eq!(Error::Data(DataError::Slot).to_string(), "Invalid JVMTI object data");
    assert_eq!(DataError::EventType.code(), 102);
    assert_eq!(u32::from(DataError::EventType), 102);
    assert!(matches!(DataError::try_from_code(102), Ok(DataError::EventType)));
    assert!(matches!(DataError::try_from(102u32), Ok(DataError::EventType)));
    assert_eq!(DataError::EventType.message(), "The specified event type ID is not recognized");
    assert_eq!(Error::code_to_result(102), Err(Error::Data(DataError::EventType)));
    assert_eq!(Error::from(DataError::EventType).code(), 102);
    assert_eq!(Error::Data(DataError::EventType).to_string(), "Invalid JVMTI object data");
    assert_eq!(DataError::TypeMismatch.code(), 34);
    assert_eq!(u32::from(DataError::TypeMismatch), 34);
    assert!(matches!(DataError::try_from_code(34), Ok(DataError::TypeMismatch)));
    assert!(matches!(DataError::try_from(34u32), Ok(DataError::TypeMismatch)));
    assert_eq!(DataError::TypeMismatch.message(), "The variable is not an appropriate type for the function used");
    assert_eq!(Error::code_to_result(34), Err(Error::Data(DataError::TypeMismatch)));
    assert_eq!(Error::from(DataError::TypeMismatch).code(), 34);
    assert_eq!(Error::Data(DataError::TypeMismatch).to_string(), "Invalid JVMTI object data");
    assert_eq!(DataError::IllegalArgument.code(), 103);
    assert_eq!(u32::from(DataError::IllegalArgument), 103);
    assert!(matches!(DataError::try_from_code(103), Ok(DataError::IllegalArgument)));
    assert!(matches!(DataError::try_from(103u32), Ok(DataError::IllegalArgument)));
    assert_eq!(DataError::IllegalArgument.message(), "Illegal argument");
    assert_eq!(Error::code_to_result(103), Err(Error::Data(DataError::IllegalArgument)));
    assert_eq!(Error::from(DataError::IllegalArgument).code(), 103);
    assert_eq!(Error::Data(DataError::IllegalArgument).to_string(), "Invalid JVMTI object data");
    assert!(matches!(DataError::try_from_code(0), Err(InvalidVariant(0))));
    assert!(matches!(DataError::try_from_code(255), Err(InvalidVariant(255))));
}

#[test]
fn supporterror_codes_and_messages() {
    assert_eq!(SupportError::kind_message(), "Missing support for action");
    assert_eq!(SupportError::MissingCapability.code(), 99);
    assert_eq!(u32::from(SupportError::MissingCapability), 99);
    assert!(matches!(SupportError::try_from_code(99), Ok(SupportError::MissingCapability)));
    assert!(matches!(SupportError::try_from(99u32), Ok(SupportError::MissingCapability)));
    assert_eq!(SupportError::MissingCapability.message(), "The capability being used is false in this environment");
    assert_eq!(Error::code_to_result(99), Err(Error::Support(SupportError::MissingCapability)));
    assert_eq!(Error::from(SupportError::MissingCapability).code(), 99);
    assert_eq!(Error::Support(SupportError::MissingCapability).to_string(), "Missing support for action");
    assert_eq!(SupportError::ClassLoaderUnsupported.code(), 106);
    assert_eq!(u32::from(SupportError::ClassLoaderUnsupported), 106);
    assert!(matches!(SupportError::try_from_code(106), Ok(SupportError::ClassLoaderUnsupported)));
    assert!(matches!(SupportError::try_from(106u32), Ok(SupportError::ClassLoaderUnsupported)));
    assert_eq!(SupportError::ClassLoaderUnsupported.message(), "The class loader does not support this operation");
    assert_eq!(Error::code_to_result(106), Err(Error::Support(SupportError::ClassLoaderUnsupported)));
    assert_eq!(Error::from(SupportError::ClassLoaderUnsupported).code(), 106);
    assert_eq!(Error::Support(SupportError::ClassLoaderUnsupported).to_string(), "Missing support for action");
    assert_eq!(SupportError::OperationUnsupported.code(), 73);
    assert_eq!(u32::from(SupportError::OperationUnsupported), 73);
    assert!(matches!(SupportError::try_from_code(73), Ok(SupportError::OperationUnsupported)));
    assert!(matches!(SupportError::try_from(73u32), Ok(SupportError::OperationUnsupported)));
    assert_eq!(SupportError::OperationUnsupported.message(), "Functionality is unsupported in this implementation");
    assert_eq!(Error::code_to_result(73), Err(Error::Support(SupportError::OperationUnsupported)));
    assert_eq!(Error::from(SupportError::OperationUnsupported).code(), 73);
    assert_eq!(Error::Support(SupportError::OperationUnsupported).to_string(), "Missing support for action");
    assert_eq!(SupportError::NotAvailable.code(), 98);
    assert_eq!(u32::from(SupportError::NotAvailable), 98);
    assert!(matches!(SupportError::try_from_code(98), Ok(SupportError::NotAvailable)));
    assert!(matches!(SupportError::try_from(98u32), Ok(SupportError::NotAvailable)));
    assert_eq!(SupportError::NotAvailable.message(), "The functionality is not available in this virtual machine");
    assert_eq!(Error::code_to_result(98), Err(Error::Support(SupportError::NotAvailable)));
    assert_eq!(Error::from(SupportError::NotAvailable).code(), 98);
    assert_eq!(Error::Support(SupportError::NotAvailable).to_string(), "Missing support for action");
    assert!(matches!(SupportError::try_from_code(0), Err(InvalidVariant(0))));
    assert!(matches!(SupportError::try_from_code(255), Err(InvalidVariant(255))));
}

#[test]
fn monitorerror_codes_and_messages() {
    assert_eq!(MonitorError::kind_message(), "Monitor operation failed");
    assert_eq!(MonitorError::NotMonitorOwner.code(), 51);
    assert_eq!(u32::from(MonitorError::NotMonitorOwner), 51);
    assert!(matches!(MonitorError::try_from_code(51), Ok(MonitorError::NotMonitorOwner)));
    assert!(matches!(MonitorError::try_from(51u32), Ok(MonitorError::NotMonitorOwner)));
    assert_eq!(MonitorError::NotMonitorOwner.message(), "This thread doesn't own the raw monitor");
    assert_eq!(Error::code_to_result(51), Err(Error::Monitor(MonitorError::NotMonitorOwner)));
    assert_eq!(Error::from(MonitorError::NotMonitorOwner).code(), 51);
    assert_eq!(Error::Monitor(MonitorError::NotMonitorOwner).to_string(), "Monitor operation failed");
    assert_eq!(MonitorError::Interrupt.code(), 52);
    assert_eq!(u32::from(MonitorError::Interrupt), 52);
    assert!(matches!(MonitorError::try_from_code(52), Ok(MonitorError::Interrupt)));
    assert!(matches!(MonitorError::try_from(52u32), Ok(MonitorError::Interrupt)));
    assert_eq!(MonitorError::Interrupt.message(), "The call has been interrupted before completion");
    assert_eq!(Error::code_to_result(52), Err(Error::Monitor(MonitorError::Interrupt)));
    assert_eq!(Error::from(MonitorError::Interrupt).code(), 52);
    assert_eq!(Error::Monitor(MonitorError::Interrupt).to_string(), "Monitor operation failed");
    assert!(matches!(MonitorError::try_from_code(0), Err(InvalidVariant(0))));
    assert!(matches!(MonitorError::try_from_code(255), Err(InvalidVariant(255))));
}

#[test]
fn frameerror_codes_and_messages() {
    assert_eq!(FrameError::kind_message(), "Frame operation failed");
    assert_eq!(FrameError::NoMoreFrames.code(), 31);
    assert_eq!(u32::from(FrameError::NoMoreFrames), 31);
    assert!(matches!(FrameError::try_from_code(31), Ok(FrameError::NoMoreFrames)));
    assert!(matches!(FrameError::try_from(31u32), Ok(FrameError::NoMoreFrames)));
    assert_eq!(FrameError::NoMoreFrames.message(), "There are no Java programming language or JNI stack frames at the specified depth");
    assert_eq!(Error::code_to_result(31), Err(Error::Frame(FrameError::NoMoreFrames)));
    assert_eq!(Error::from(FrameError::NoMoreFrames).code(), 31);
    assert_eq!(Error::Frame(FrameError::NoMoreFrames).to_string(), "Frame operation failed");
    assert_eq!(FrameError::OpaqueFrame.code(), 32);
    assert_eq!(u32::from(FrameError::OpaqueFrame), 32);
    assert!(matches!(FrameError::try_from_code(32), Ok(FrameError::OpaqueFrame)));
    assert!(matches!(FrameError::try_from(32u32), Ok(FrameError::OpaqueFrame)));
    assert_eq!(FrameError::OpaqueFrame.message(), "Information about the frame is not available (e.g. for native frames), or the function cannot be performed on the thread's current frame");
    assert_eq!(Error::code_to_result(32), Err(Error::Frame(FrameError::OpaqueFrame)));
    assert_eq!(Error::from(FrameError::OpaqueFrame).code(), 32);
    assert_eq!(Error::Frame(FrameError::OpaqueFrame).to_string(), "Frame operation failed");
    assert!(matches!(FrameError::try_from_code(0), Err(InvalidVariant(0))));
    assert!(matches!(FrameError::try_from_code(255), Err(InvalidVariant(255))));
}

#[test]
fn itemerror_codes_and_messages() {
    assert_eq!(ItemError::kind_message(), "Miscellaneous query and set error");
    assert_eq!(ItemError::Duplicate.code(), 40);
    assert_eq!(u32::from(ItemError::Duplicate), 40);
    assert!(matches!(ItemError::try_from_code(40), Ok(ItemError::Duplicate)));
    assert!(matches!(ItemError::try_from(40u32), Ok(ItemError::Duplicate)));
    assert_eq!(ItemError::Duplicate.message(), "Item already set");
    assert_eq!(Error::code_to_result(40), Err(Error::Item(ItemError::Duplicate)));
    assert_eq!(Error::from(ItemError::Duplicate).code(), 40);
    assert_eq!(Error::Item(ItemError::Duplicate).to_string(), "Miscellaneous query and set error");
    assert_eq!(ItemError::NotFound.code(), 41);
    assert_eq!(u32::from(ItemError::NotFound), 41);
    assert!(matches!(ItemError::try_from_code(41), Ok(ItemError::NotFound)));
    assert!(matches!(ItemError::try_from(41u32), Ok(ItemError::NotFound)));
    assert_eq!(ItemError::NotFound.message(), "Desired element (e.g. field or breakpoint) not found");
    assert_eq!(Error::code_to_result(41), Err(Error::Item(ItemError::NotFound)));
    assert_eq!(Error::from(ItemError::NotFound).code(), 41);
    assert_eq!(Error::Item(ItemError::NotFound).to_string(), "Miscellaneous query and set error");
    assert_eq!(ItemError::AbsentInformation.code(), 101);
    assert_eq!(u32::from(ItemError::AbsentInformation), 101);
    assert!(matches!(ItemError::try_from_code(101), Ok(ItemError::AbsentInformation)));
    assert!(matches!(ItemError::try_from(101u32), Ok(ItemError::AbsentInformation)));
    assert_eq!(ItemError::AbsentInformation.message(), "The requested information is not available");
    assert_eq!(Error::code_to_result(101), Err(Error::Item(ItemError::AbsentInformation)));
    assert_eq!(Error::from(ItemError::AbsentInformation).code(), 101);
    assert_eq!(Error::Item(ItemError::AbsentInformation).to_string(), "Miscellaneous query and set error");
    assert_eq!(ItemError::NativeMethod.code(), 104);
    assert_eq!(u32::from(ItemError::NativeMethod), 104);
    assert!(matches!(ItemError::try_from_code(104), Ok(ItemError::NativeMethod)));
    assert!(matches!(ItemError::try_from(104u32), Ok(ItemError::NativeMethod)));
    assert_eq!(ItemError::NativeMethod.message(), "The requested information is not available for native method");
    assert_eq!(Error::code_to_result(104), Err(Error::Item(ItemError::NativeMethod)));
    assert_eq!(Error::from(ItemError::NativeMethod).code(), 104);
    assert_eq!(Error::Item(ItemError::NativeMethod).to_string(), "Miscellaneous query and set error");
    assert!(matches!(ItemError::try_from_code(0), Err(InvalidVariant(0))));
    assert!(matches!(ItemError::try_from_code(255), Err(InvalidVariant(255))));
}
