use ezo_rtd::DataLoggerStorageIntervalResponse;
use ezo_rtd::DataLoggerStorageIntervalSeconds;
use ezo_rtd::TemperatureScale;
use ezo_rtd::TemperatureScaleResponse;

#[test]
fn parses_temperature_scale_response() {
    let response = "?S,c\0".as_bytes();
    assert_eq!(
        TemperatureScaleResponse::parse(&response).unwrap(),
        TemperatureScaleResponse(TemperatureScale::Celsius)
    );

    let response = "?S,k\0".as_bytes();
    assert_eq!(
        TemperatureScaleResponse::parse(&response).unwrap(),
        TemperatureScaleResponse(TemperatureScale::Kelvin)
    );

    let response = "?S,f\0".as_bytes();
    assert_eq!(
        TemperatureScaleResponse::parse(&response).unwrap(),
        TemperatureScaleResponse(TemperatureScale::Fahrenheit)
    );
}

#[test]
fn parsing_invalid_temperature_scale_response_yields_error() {
    let response = "".as_bytes();
    assert!(TemperatureScaleResponse::parse(&response).is_err());

    let response = "\0".as_bytes();
    assert!(TemperatureScaleResponse::parse(&response).is_err());

    let response = "\x01".as_bytes();
    assert!(TemperatureScaleResponse::parse(&response).is_err());

    let response = "?S,\0".as_bytes();
    assert!(TemperatureScaleResponse::parse(&response).is_err());
}

#[test]
fn parses_data_logger_storage_interval_response() {
    let response = "?D,1\0".as_bytes();
    assert_eq!(
        DataLoggerStorageIntervalResponse::parse(response).unwrap(),
        DataLoggerStorageIntervalResponse(DataLoggerStorageIntervalSeconds(1))
    );

    let response = "?D,42\0".as_bytes();
    assert_eq!(
        DataLoggerStorageIntervalResponse::parse(response).unwrap(),
        DataLoggerStorageIntervalResponse(DataLoggerStorageIntervalSeconds(42))
    );
}

#[test]
fn parsing_invalid_data_logger_storage_interval_response_yields_error() {
    let response = "?D,\0".as_bytes();
    assert!(DataLoggerStorageIntervalResponse::parse(response).is_err());

    let response = "?D,-1\0".as_bytes();
    assert!(DataLoggerStorageIntervalResponse::parse(response).is_err());

    let response = "?D,foo\0".as_bytes();
    assert!(DataLoggerStorageIntervalResponse::parse(response).is_err());
}
