use ads1119::Ads1119Err::ConversionTimeout;
use ads1119::{
    Ads1119, Ads1119Err, CmdFlags, InputSelection, OneShot, RegSelectFlags, Step, READ_INPUT_SLEEP_MS,
    READ_INPUT_TIMEOUT_MS, STATUS_CONV_RDY,
};
use embedded_hal::i2c::ErrorKind;
use embedded_hal_mock::eh1::i2c::{Mock as I2cMock, Transaction as I2cTransaction};

// number of times that the acquisition reads the status before a timeout occurs
const READ_INPUT_STATUS_REQUEST_COUNT_BEFORE_TIMEOUT: u32 =
    (READ_INPUT_TIMEOUT_MS as u32 / READ_INPUT_SLEEP_MS as u32) + 1;

// Since the only bit that is checked is the MSB
// the default status should have MSB == 0
const DEFAULT_CONFIG: u8 = 0b0000_0000;
const NOT_READY_STATUS: u8 = !0b1000_0000;
const DEVICE_ADDRESS: u8 = 0b0000_0000;

fn new_ads1119(transactions: &[I2cTransaction]) -> Ads1119<I2cMock> {
    let device_address = 0;
    Ads1119::new(I2cMock::new(transactions), device_address)
}

fn destroy_ads1119(device: Ads1119<I2cMock>) {
    device.destroy().done();
}

// Runs a one-shot acquisition to its end. The clock starts at zero and moves
// on only while the acquisition pauses between polls.
fn read_input_oneshot(
    device: &mut Ads1119<I2cMock>,
    input: &InputSelection,
) -> Result<i16, Ads1119Err<ErrorKind>> {
    let mut now: u128 = 0;
    let mut state = OneShot::Idle(*input);
    loop {
        match device.oneshot_step(state, now) {
            Step::Continue(next) => state = next,
            Step::Pause(next) => {
                now += READ_INPUT_SLEEP_MS as u128;
                state = next;
            }
            Step::Done(result) => return result,
        }
    }
}

#[test]
fn lib_can_read_config() {
    let mut device = new_ads1119(&[I2cTransaction::write_read(
        DEVICE_ADDRESS,
        vec![CmdFlags::RREG | RegSelectFlags::CONFIG],
        vec![DEFAULT_CONFIG],
    )]);
    assert_eq!(device.read_config().unwrap(), 0b0000_0000);
    destroy_ads1119(device);
}

#[test]
fn lib_can_write_config() {
    let value = 0_u8;
    let mut device = new_ads1119(&[I2cTransaction::write(
        DEVICE_ADDRESS,
        vec![CmdFlags::WREG | RegSelectFlags::CONFIG, value],
    )]);
    device.write_config(value).unwrap();
    destroy_ads1119(device);
}

#[test]
fn lib_can_read_status() {
    let mut device = new_ads1119(&[I2cTransaction::write_read(
        DEVICE_ADDRESS,
        vec![CmdFlags::RREG | RegSelectFlags::STATUS],
        vec![NOT_READY_STATUS],
    )]);
    assert_eq!(device.read_status().unwrap(), NOT_READY_STATUS);
    destroy_ads1119(device);
}

#[test]
fn can_reset() {
    let mut device = new_ads1119(&[I2cTransaction::write(DEVICE_ADDRESS, vec![CmdFlags::RESET])]);
    device.reset().unwrap();
    destroy_ads1119(device);
}

#[test]
fn can_read_input_oneshot() {
    let input = InputSelection::AN0SingleEnded;
    let expected_output = 16383_u16;
    let mut device = new_ads1119(&[
        // sets the config to use the given input
        I2cTransaction::write(
            DEVICE_ADDRESS,
            vec![CmdFlags::WREG | RegSelectFlags::CONFIG, input.bits()],
        ),
        // start conversion
        I2cTransaction::write(DEVICE_ADDRESS, vec![CmdFlags::START_SYNC]),
        // the status says "not ready yet"
        I2cTransaction::write_read(
            DEVICE_ADDRESS,
            vec![CmdFlags::RREG | RegSelectFlags::STATUS],
            vec![NOT_READY_STATUS],
        ),
        // data is now available
        I2cTransaction::write_read(
            DEVICE_ADDRESS,
            vec![CmdFlags::RREG | RegSelectFlags::STATUS],
            vec![STATUS_CONV_RDY],
        ),
        // data is retrieved
        I2cTransaction::write_read(
            DEVICE_ADDRESS,
            vec![CmdFlags::RDATA],
            vec![(expected_output >> 8) as u8, expected_output as u8],
        ),
    ]);
    assert_eq!(read_input_oneshot(&mut device, &input).unwrap(), expected_output as i16);
    destroy_ads1119(device);
}

#[test]
fn test_read_input_oneshot_timeout() {
    let input = InputSelection::AN0SingleEnded;
    let mut transactions = vec![
        // sets the config to use the given input
        I2cTransaction::write(
            DEVICE_ADDRESS,
            vec![CmdFlags::WREG | RegSelectFlags::CONFIG, input.bits()],
        ),
        // start conversion
        I2cTransaction::write(DEVICE_ADDRESS, vec![CmdFlags::START_SYNC]),
    ];
    // more "not ready" status replies than the acquisition can use before it times out
    for _ in 0..READ_INPUT_STATUS_REQUEST_COUNT_BEFORE_TIMEOUT * 2 {
        transactions.push(I2cTransaction::write_read(
            DEVICE_ADDRESS,
            vec![CmdFlags::RREG | RegSelectFlags::STATUS],
            vec![NOT_READY_STATUS],
        ))
    }
    let mut device = new_ads1119(&transactions);
    if let Err(e) = read_input_oneshot(&mut device, &input) {
        match e {
            ConversionTimeout(_) => {}
            e => {
                panic!("unexpected error: {:?}, expected a ConversionTimeout", e);
            }
        }
    } else {
        panic!("read_input_oneshot did not time out as expected");
    }
    // the surplus replies stay unconsumed: release the mock without its final check
    std::mem::forget(device.destroy());
}
