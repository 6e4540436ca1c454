use grindset::lang::LangError;
use grindset::session::PracticeError;

#[test]
fn each_error_kind_has_its_message() {
    assert_eq!(
        PracticeError::InvalidInput(LangError::EmptyLanguageCode).message(),
        "Language code is empty after trimming"
    );
    assert_eq!(
        PracticeError::InvalidInput(LangError::UnsupportedLanguage("zig".to_string())).message(),
        "Unsupported file extension: zig"
    );
    assert_eq!(
        PracticeError::RemoteTransportFailure("timed out".to_string()).message(),
        "could not reach the question service: timed out"
    );
    assert_eq!(
        PracticeError::RemoteDecodeFailure("missing field `title`".to_string()).message(),
        "unexpected answer from the question service: missing field `title`"
    );
    assert_eq!(
        PracticeError::ConversionFailure("exit 1".to_string()).message(),
        "could not convert the description: exit 1"
    );
    assert_eq!(
        PracticeError::FilesystemFailure("denied".to_string()).message(),
        "could not write the practice record: denied"
    );
    assert_eq!(
        PracticeError::ClockOutOfRange.message(),
        "the local time cannot be recorded"
    );
}
