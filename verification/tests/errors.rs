use projektwoche_setup::manager::effects::ExecutionError;

#[test]
fn every_error_describes_itself() {
    let cases = [
        (ExecutionError::DownloadFailed, "Download failed"),
        (
            ExecutionError::ProcessExitNonZero { code: Some(127) },
            "Command failed with exit code: 127",
        ),
        (
            ExecutionError::ProcessExitNonZero { code: Some(-9) },
            "Command failed with exit code: -9",
        ),
        (ExecutionError::ProcessExitNonZero { code: None }, "Command did not run to its end"),
        (
            ExecutionError::AssertionMismatch,
            "Expected text is missing from the command's output",
        ),
        (ExecutionError::UnsupportedArchiveFormat, "Unsupported archive format"),
        (ExecutionError::UnsupportedFileType, "Unsupported filetype for execution"),
        (ExecutionError::NoPackageManagerAvailable, "No suitable package manager found"),
        (ExecutionError::ConditionTimeout, "Timeout waiting for condition"),
        (ExecutionError::PlatformMismatch, "Instruction is not available on this platform"),
        (ExecutionError::MissingOsMapping, "No instructions found for this operating system"),
        (ExecutionError::WorkerPanic, "Worker crashed"),
        (ExecutionError::EmptyCommand, "Empty command"),
        (ExecutionError::NoServiceManagerAvailable, "No service manager found"),
        (ExecutionError::MissingEnvironment, "A directory of the user is not known"),
        (ExecutionError::Io, "The operation could not be carried out"),
        (ExecutionError::UnexpectedOutcome, "The host reported an outcome of the wrong kind"),
    ];
    for (error, expected) in cases {
        assert_eq!(error.describe(), expected);
    }
}
