//! Reading haptic data from JSON: the decisions taken on the parsed version and contents

use vstd::prelude::*;
use crate::v1::HapticData;
use crate::v1::ValidationError;
use crate::v1::ValidationMode;
use crate::v1::validation_error;
use crate::v1::valid_data_is_ordered_and_in_range;
use crate::version::Version;

verus! {

/// The different kinds of errors that can occur when reading haptic data from JSON
#[derive(Debug)]
pub enum FromJsonError {
    /// The JSON couldn't be parsed; holds the parser's message
    InvalidJson(String),
    /// The haptic data's version isn't supported
    UnsupportedVersion(Version),
    /// The haptic data was parsed, but failed validation
    V1ValidationError(ValidationError),
}

/// The result of reading haptic data, given the outcome of parsing its top-level `version`
/// field and the outcome of parsing the whole document as version 1 haptic data
pub open spec fn from_parsed_json_result(
    version: Result<Version, String>,
    data: Result<HapticData, String>,
    mode: ValidationMode,
) -> Result<HapticData, FromJsonError> {
    match version {
        Err(message) => Err(FromJsonError::InvalidJson(message)),
        Ok(v) => if v.major != 1 {
            Err(FromJsonError::UnsupportedVersion(v))
        } else {
            match data {
                Err(message) => Err(FromJsonError::InvalidJson(message)),
                Ok(d) => match validation_error(d, mode) {
                    Some(e) => Err(FromJsonError::V1ValidationError(e)),
                    None => Ok(d),
                },
            }
        },
    }
}

/// Completes reading haptic data from JSON
///
/// `version` is the outcome of parsing the document's top-level `version` field, and `data` the
/// outcome of parsing the whole document as version 1 haptic data (only consulted when the
/// version's major number is 1). Parse failures carry the parser's message. Version 1 data is
/// validated with the given validation mode.
pub fn from_parsed_json(
    version: Result<Version, String>,
    data: Result<HapticData, String>,
    validation_mode: ValidationMode,
) -> (r: Result<HapticData, FromJsonError>)
    ensures
        r == from_parsed_json_result(version, data, validation_mode),
{
    match version {
        Err(message) => Err(FromJsonError::InvalidJson(message)),
        Ok(v) => {
            if v.major != 1 {
                Err(FromJsonError::UnsupportedVersion(v))
            } else {
                match data {
                    Err(message) => Err(FromJsonError::InvalidJson(message)),
                    Ok(d) => match d.validate(validation_mode) {
                        Ok(validated) => Ok(validated),
                        Err(e) => Err(FromJsonError::V1ValidationError(e)),
                    },
                }
            }
        },
    }
}


/// Reading version 1 data validates it in the mode that was asked for: it hands the data back
/// unchanged exactly when validation in that mode succeeds, and otherwise reports that mode's
/// validation error. In particular, data read in strict mode has every frequency breakpoint
/// within the amplitude envelope's time range.
pub proof fn reading_validates_in_the_requested_mode(
    version: Version,
    data: HapticData,
    mode: ValidationMode,
)
    requires
        version.major == 1,
    ensures
        validation_error(data, mode) is None ==> from_parsed_json_result(
            Ok(version),
            Ok(data),
            mode,
        ) == Ok::<HapticData, FromJsonError>(data),
        validation_error(data, mode) matches Some(e) ==> from_parsed_json_result(
            Ok(version),
            Ok(data),
            mode,
        ) == Err::<HapticData, FromJsonError>(FromJsonError::V1ValidationError(e)),
        (mode == ValidationMode::Strict && from_parsed_json_result(Ok(version), Ok(data), mode) is Ok
            && data.signals.continuous.envelopes.frequency is Some) ==> forall|i: int|
            0 <= i < data.signals.continuous.envelopes.frequency->0@.len()
                ==> data.signals.continuous.envelopes.amplitude@[0].time.ieee_le(
                (#[trigger] data.signals.continuous.envelopes.frequency->0@[i]).time,
            ) && data.signals.continuous.envelopes.frequency->0@[i].time.ieee_le(
                data.signals.continuous.envelopes.amplitude@[data.signals.continuous.envelopes.amplitude@.len()
                    - 1].time,
            ),
{
    if validation_error(data, mode) is None {
        valid_data_is_ordered_and_in_range(data, mode);
    }
}

/// Reading succeeds only on version 1 data that passed validation in the requested mode, and
/// then hands back the parsed data unchanged
pub proof fn reading_succeeds_only_on_valid_version_1_data(
    version: Result<Version, String>,
    data: Result<HapticData, String>,
    mode: ValidationMode,
)
    ensures
        from_parsed_json_result(version, data, mode) is Ok ==> {
            &&& version is Ok
            &&& version->Ok_0.major == 1
            &&& data is Ok
            &&& validation_error(data->Ok_0, mode) is None
            &&& from_parsed_json_result(version, data, mode)->Ok_0 == data->Ok_0
        },
{
}

} // verus!
