use typed_accounts::{
    AccountValidation, Add, Counter, Discriminator, ErrorKind, Initialize, Loggable, MyAccount,
    MyError, MyEvent, MyInstruction, Profile, ProgramError,
};

#[test]
fn account_tags() {
    assert_eq!(MyAccount::Counter.tag(), 0);
    assert_eq!(MyAccount::Profile.tag(), 1);
    assert_eq!(u8::from(MyAccount::Profile), 1);
    assert_eq!(MyAccount::try_from_primitive(0), Some(MyAccount::Counter));
    assert_eq!(MyAccount::try_from_primitive(1), Some(MyAccount::Profile));
    assert_eq!(MyAccount::try_from_primitive(2), None);
    assert_eq!(MyAccount::try_from_primitive(255), None);
}

#[test]
fn instruction_tags() {
    assert_eq!(MyInstruction::Add.tag(), 0);
    assert_eq!(MyInstruction::Initialize.tag(), 1);
    assert_eq!(MyInstruction::try_from_primitive(0), Some(MyInstruction::Add));
    assert_eq!(MyInstruction::try_from_primitive(1), Some(MyInstruction::Initialize));
    assert_eq!(MyInstruction::try_from_primitive(2), None);
}

#[test]
fn discriminators_of_the_records() {
    assert_eq!(Counter::discriminator(), 0);
    assert_eq!(Profile::discriminator(), 1);
    assert_eq!(Add::discriminator(), 0);
    assert_eq!(Initialize::discriminator(), 1);
    assert_eq!(MyEvent::discriminator(), 0);
}

#[test]
fn error_kinds() {
    assert_eq!(ProgramError::MissingRequiredSignature.kind(), ErrorKind::MissingAuthorization);
    assert_eq!(ProgramError::InvalidAccountOwner.kind(), ErrorKind::InvalidAccountState);
    assert_eq!(ProgramError::InvalidAccountData.kind(), ErrorKind::InvalidAccountState);
    assert_eq!(ProgramError::AccountAlreadyInitialized.kind(), ErrorKind::InvalidAccountState);
    assert_eq!(ProgramError::InvalidSeeds.kind(), ErrorKind::InvalidAccountState);
    assert_eq!(ProgramError::InvalidInstructionData.kind(), ErrorKind::MalformedPayload);
    assert_eq!(ProgramError::ArithmeticOverflow.kind(), ErrorKind::ArithmeticFault);
    assert_eq!(ProgramError::AccountDataTooSmall.kind(), ErrorKind::AllocationFault);
    assert_eq!(ProgramError::Custom(7).kind(), ErrorKind::ProgramDefined);
}

#[test]
fn program_error_of_the_sample_program() {
    assert_eq!(MyError::Dummy.code(), 0);
    assert_eq!(MyError::Dummy.message(), "You did something wrong");
    assert_eq!(ProgramError::from(MyError::Dummy), ProgramError::Custom(0));
}

#[test]
fn event_is_logged_as_its_bytes() {
    let event = MyEvent { value: 2 };
    assert_eq!(event.log(), vec![0u8, 2, 0, 0, 0, 0, 0, 0, 0]);
    assert_eq!(event.log_return(), event.to_bytes());
}

#[test]
fn condition_on_a_record() {
    let counter = Counter { value: 3 };
    assert_eq!(counter.assert_that(|c| c.value == 3), Ok(&counter));
    assert_eq!(counter.assert_that(|c| c.value > 3), Err(ProgramError::InvalidAccountData));
    let profile = Profile { id: 1 };
    assert_eq!(profile.assert_that(|p| p.id == 1), Ok(&profile));
}

#[test]
fn condition_with_its_own_failure() {
    let counter = Counter { value: 3 };
    assert_eq!(counter.assert_err(|c| c.value == 3, ProgramError::Custom(4)), Ok(&counter));
    assert_eq!(
        counter.assert_err(|c| c.value == 4, ProgramError::Custom(4)),
        Err(ProgramError::Custom(4))
    );
}

#[test]
fn condition_with_a_message() {
    let counter = Counter { value: 3 };
    assert_eq!(counter.assert_msg(|c| c.value == 3, "the count is three"), Ok(&counter));
    assert_eq!(
        counter.assert_msg(|c| c.value == 4, "the count is four"),
        Err(ProgramError::InvalidAccountData)
    );
}

#[test]
fn conditions_chain() {
    let counter = Counter { value: 3 };
    let r = counter
        .assert_that(|c| c.value > 5)
        .and_then(|c| c.assert_err(|c| c.value == 0, ProgramError::Custom(1)));
    assert_eq!(r, Err(ProgramError::InvalidAccountData));
    let r = counter
        .assert_that(|c| c.value < 5)
        .and_then(|c| c.assert_err(|c| c.value == 0, ProgramError::Custom(1)));
    assert_eq!(r, Err(ProgramError::Custom(1)));
}

#[test]
fn condition_on_a_record_to_change() {
    let mut counter = Counter { value: 3 };
    {
        let same = counter.assert_mut(|c| c.value == 3).unwrap();
        same.value = 4;
    }
    assert_eq!(counter.value, 4);
    assert_eq!(
        counter.assert_mut(|c| c.value == 3).err(),
        Some(ProgramError::InvalidAccountData)
    );
    assert_eq!(
        counter.assert_mut_err(|c| c.value == 3, ProgramError::Custom(9)).err(),
        Some(ProgramError::Custom(9))
    );
    assert_eq!(
        counter.assert_mut_msg(|c| c.value == 3, "three").err(),
        Some(ProgramError::InvalidAccountData)
    );
    counter.assert_mut_err(|c| c.value == 4, ProgramError::Custom(9)).unwrap().value = 5;
    counter.assert_mut_msg(|c| c.value == 5, "five").unwrap().value = 6;
    assert_eq!(counter.value, 6);
}

#[test]
fn instructions_share_no_bytes_with_other_kinds() {
    let add = Add { value: [1, 0, 0, 0, 0, 0, 0, 0] };
    assert_eq!(Initialize::try_from_bytes(&add.to_bytes()), Err(ProgramError::InvalidInstructionData));
    assert_eq!(
        Add::try_from_bytes(&Initialize {}.to_bytes()),
        Err(ProgramError::InvalidInstructionData)
    );
}
