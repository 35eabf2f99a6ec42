use lifx_codec::wifi_signal_quality_from_rssi;
use lifx_codec::WifiSignalQuality;

#[test]
fn wifi_quality_bands_for_decibel_readings() {
    assert_eq!(wifi_signal_quality_from_rssi(-85), WifiSignalQuality::VeryLow);
    assert_eq!(wifi_signal_quality_from_rssi(-80), WifiSignalQuality::VeryLow);
    assert_eq!(wifi_signal_quality_from_rssi(-75), WifiSignalQuality::Low);
    assert_eq!(wifi_signal_quality_from_rssi(-70), WifiSignalQuality::Low);
    assert_eq!(wifi_signal_quality_from_rssi(-65), WifiSignalQuality::Average);
    assert_eq!(wifi_signal_quality_from_rssi(-60), WifiSignalQuality::Average);
    assert_eq!(wifi_signal_quality_from_rssi(-30), WifiSignalQuality::High);
}

#[test]
fn wifi_quality_bands_for_raw_steps() {
    assert_eq!(wifi_signal_quality_from_rssi(200), WifiSignalQuality::NoSignal);
    assert_eq!(wifi_signal_quality_from_rssi(0), WifiSignalQuality::NoSignal);
    assert_eq!(wifi_signal_quality_from_rssi(3), WifiSignalQuality::NoSignal);
    assert_eq!(wifi_signal_quality_from_rssi(4), WifiSignalQuality::VeryLow);
    assert_eq!(wifi_signal_quality_from_rssi(6), WifiSignalQuality::VeryLow);
    assert_eq!(wifi_signal_quality_from_rssi(7), WifiSignalQuality::Low);
    assert_eq!(wifi_signal_quality_from_rssi(11), WifiSignalQuality::Low);
    assert_eq!(wifi_signal_quality_from_rssi(12), WifiSignalQuality::Average);
    assert_eq!(wifi_signal_quality_from_rssi(16), WifiSignalQuality::Average);
    assert_eq!(wifi_signal_quality_from_rssi(17), WifiSignalQuality::High);
    assert_eq!(wifi_signal_quality_from_rssi(100), WifiSignalQuality::High);
}
