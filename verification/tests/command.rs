use wksl::address::{BroadcastTarget, IpAddress};
use wksl::command::{
    exit_code, plan_sleep, plan_wake, sleep_result, WakePlan, EXIT_FAILURE, EXIT_SUCCESS,
};
use wksl::config::{RunError, SleepCommand, WOLConfig};
use wksl::wake::make_packet;

const MAC: [u8; 6] = [0x00, 0x11, 0x22, 0x33, 0x44, 0x55];

fn bare(mac: [u8; 6]) -> WOLConfig {
    WOLConfig { mac_address: mac, port: None, broadcast_address: None, sleep_command: None }
}

#[test]
fn wake_with_defaults() {
    let plan = plan_wake(&bare(MAC));
    assert_eq!(
        plan,
        WakePlan {
            packet: make_packet(&MAC),
            target: BroadcastTarget { destination: IpAddress::V4([255, 255, 255, 255]), port: 9 },
        }
    );
}

#[test]
fn wake_with_port_and_address_from_the_configuration() {
    let config = WOLConfig {
        mac_address: [0xDE, 0xAD, 0xBE, 0xEF, 0x00, 0x01],
        port: Some(7),
        broadcast_address: Some(IpAddress::V4([192, 168, 178, 255])),
        sleep_command: None,
    };
    let plan = plan_wake(&config);
    assert_eq!(plan.target.port, 7);
    assert_eq!(plan.target.destination, IpAddress::V4([192, 168, 178, 255]));
    assert_eq!(&plan.packet[0..6], &[0xFFu8; 6]);
    assert_eq!(&plan.packet[6..12], &[0xDE, 0xAD, 0xBE, 0xEF, 0x00, 0x01]);
    assert_eq!(&plan.packet[96..102], &[0xDE, 0xAD, 0xBE, 0xEF, 0x00, 0x01]);
}

#[test]
fn wake_with_one_of_the_two_named() {
    let mut config = bare(MAC);
    config.port = Some(4000);
    assert_eq!(
        plan_wake(&config).target,
        BroadcastTarget { destination: IpAddress::V4([255, 255, 255, 255]), port: 4000 }
    );
    let mut config = bare(MAC);
    config.broadcast_address = Some(IpAddress::V4([10, 1, 255, 255]));
    assert_eq!(
        plan_wake(&config).target,
        BroadcastTarget { destination: IpAddress::V4([10, 1, 255, 255]), port: 9 }
    );
}

#[test]
fn wake_does_not_need_a_sleep_command() {
    let mut config = bare(MAC);
    config.sleep_command =
        Some(SleepCommand { cmd: String::from("ssh"), args: vec![String::from("nas")] });
    assert_eq!(plan_wake(&config), plan_wake(&bare(MAC)));
}

#[test]
fn sleep_uses_the_command_of_the_configuration() {
    let mut config = bare(MAC);
    config.sleep_command = Some(SleepCommand {
        cmd: String::from("ssh"),
        args: vec![String::from("nas"), String::from("sudo"), String::from("poweroff")],
    });
    let command = plan_sleep(config).unwrap();
    assert_eq!(command.cmd, "ssh");
    assert_eq!(command.args, vec!["nas", "sudo", "poweroff"]);
}

#[test]
fn sleep_keeps_a_command_without_arguments() {
    let mut config = bare(MAC);
    config.sleep_command = Some(SleepCommand { cmd: String::from("halt-nas"), args: vec![] });
    let command = plan_sleep(config).unwrap();
    assert_eq!(command.cmd, "halt-nas");
    assert!(command.args.is_empty());
}

#[test]
fn sleep_without_a_command_is_an_error() {
    assert!(matches!(plan_sleep(bare(MAC)), Err(RunError::NoSleepCommand)));
}

#[test]
fn a_command_that_succeeded_put_the_machine_to_sleep() {
    assert!(matches!(sleep_result(true), Ok(())));
}

#[test]
fn a_command_that_failed_is_an_error() {
    assert!(matches!(sleep_result(false), Err(RunError::SleepCommandFailed)));
}

#[test]
fn exit_codes() {
    assert_eq!(EXIT_SUCCESS, 0);
    assert_eq!(EXIT_FAILURE, 1);
    assert_eq!(exit_code(&Ok(())), 0);
    assert_eq!(exit_code(&Err(RunError::NoSleepCommand)), 1);
    assert_eq!(exit_code(&Err(RunError::SleepCommandFailed)), 1);
    assert_eq!(exit_code(&Err(RunError::unknown_section("nas"))), 1);
    assert_eq!(exit_code(&sleep_result(true)), 0);
    assert_eq!(exit_code(&sleep_result(false)), 1);
}
