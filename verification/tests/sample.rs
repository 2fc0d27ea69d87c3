use d3dx12::device::dxgi_factory_flags;
use d3dx12::device::is_device_removed;
use d3dx12::device::is_software_adapter;
use d3dx12::device::DXGI_ADAPTER_FLAG_SOFTWARE;
use d3dx12::device::DXGI_CREATE_FACTORY_DEBUG;
use d3dx12::device::DXGI_ERROR_DEVICE_REMOVED;
use d3dx12::device::DXGI_ERROR_DEVICE_RESET;
use d3dx12::sample::build_command_line;
use d3dx12::sample::sample_message;
use d3dx12::sample::window_title;
use d3dx12::sample::SampleCommandLine;
use d3dx12::sample::SampleMessage;
use d3dx12::sample::WM_KEYDOWN;
use d3dx12::sample::WM_KEYUP;
use d3dx12::sample::WM_PAINT;
use windows::Win32::Graphics::Dxgi;
use windows::Win32::UI::WindowsAndMessaging;

fn args(list: &[&str]) -> Vec<String> {
    list.iter().map(|arg| arg.to_string()).collect()
}

#[test]
fn message_and_device_constants_are_those_of_the_api() {
    assert_eq!(WM_PAINT, WindowsAndMessaging::WM_PAINT);
    assert_eq!(WM_KEYDOWN, WindowsAndMessaging::WM_KEYDOWN);
    assert_eq!(WM_KEYUP, WindowsAndMessaging::WM_KEYUP);
    assert_eq!(DXGI_ADAPTER_FLAG_SOFTWARE, Dxgi::DXGI_ADAPTER_FLAG_SOFTWARE.0);
    assert_eq!(DXGI_CREATE_FACTORY_DEBUG, Dxgi::DXGI_CREATE_FACTORY_DEBUG);
    assert_eq!(DXGI_ERROR_DEVICE_REMOVED, Dxgi::DXGI_ERROR_DEVICE_REMOVED.0);
    assert_eq!(DXGI_ERROR_DEVICE_RESET, Dxgi::DXGI_ERROR_DEVICE_RESET.0);
    assert_eq!(DXGI_ERROR_DEVICE_REMOVED as u32, 0x887A0005);
    assert_eq!(DXGI_ERROR_DEVICE_RESET as u32, 0x887A0007);
}

#[test]
fn without_the_flag_a_hardware_adapter_is_used() {
    assert!(!SampleCommandLine::default().use_warp_device);
    assert!(!build_command_line(&args(&[])).use_warp_device);
    assert!(!build_command_line(&args(&["sample.exe"])).use_warp_device);
    assert!(!build_command_line(&args(&["sample.exe", "-fast", "warp"])).use_warp_device);
}

#[test]
fn the_flag_is_taken_with_dash_or_slash_in_any_case() {
    for flag in ["-warp", "/warp", "-WARP", "/WARP", "-Warp", "/wArP"] {
        assert!(build_command_line(&args(&["sample.exe", flag])).use_warp_device);
    }
}

#[test]
fn the_flag_is_taken_at_any_place() {
    assert!(build_command_line(&args(&["/warp"])).use_warp_device);
    assert!(build_command_line(&args(&["sample.exe", "-a", "-b", "-warp"])).use_warp_device);
    assert!(build_command_line(&args(&["sample.exe", "-warp", "-a", "-b"])).use_warp_device);
    assert!(build_command_line(&args(&["sample.exe", "-warp", "/warp"])).use_warp_device);
}

#[test]
fn what_only_looks_like_the_flag_is_not_taken() {
    for arg in [
        "warp", "--warp", "-warp ", " -warp", "-warpx", "-war", "\\warp", "-w\u{e4}rp",
        "-\u{212a}arp", "-warp\u{0}", "",
    ] {
        assert!(!build_command_line(&args(&["sample.exe", arg])).use_warp_device);
    }
}

#[test]
fn the_title_says_when_the_software_rasterizer_is_used() {
    let warp = SampleCommandLine {
        use_warp_device: true,
    };
    let hardware = SampleCommandLine {
        use_warp_device: false,
    };
    assert_eq!(
        window_title("D3D12 Hello Triangle".to_string(), &warp),
        "D3D12 Hello Triangle (WARP)"
    );
    assert_eq!(
        window_title("D3D12 Hello Triangle".to_string(), &hardware),
        "D3D12 Hello Triangle"
    );
    assert_eq!(window_title(String::new(), &warp), " (WARP)");
    assert_eq!(window_title(String::new(), &hardware), "");
}

#[test]
fn key_and_paint_messages_are_the_samples_own() {
    assert_eq!(sample_message(WM_KEYDOWN, 37), Some(SampleMessage::KeyDown(37)));
    assert_eq!(sample_message(WM_KEYUP, 32), Some(SampleMessage::KeyUp(32)));
    assert_eq!(sample_message(WM_PAINT, 0), Some(SampleMessage::Paint));
    assert_eq!(sample_message(WM_PAINT, 12345), Some(SampleMessage::Paint));
}

#[test]
fn other_messages_are_left_to_the_window() {
    for message in [0u32, 1, 2, 14, 16, 18, 255, 258, 0x0201, u32::MAX] {
        assert_eq!(sample_message(message, 37), None);
    }
}

#[test]
fn the_key_code_is_the_low_word_of_the_parameter() {
    assert_eq!(
        sample_message(WM_KEYDOWN, 0x1_0025),
        Some(SampleMessage::KeyDown(0x25))
    );
    assert_eq!(
        sample_message(WM_KEYUP, 0xffff),
        Some(SampleMessage::KeyUp(0xffff))
    );
    assert_eq!(
        sample_message(WM_KEYUP, usize::MAX),
        Some(SampleMessage::KeyUp(0xffff))
    );
    assert_eq!(
        sample_message(WM_KEYDOWN, 0x7_0000),
        Some(SampleMessage::KeyDown(0))
    );
}

#[test]
fn software_adapters_are_known_by_their_flag() {
    assert!(!is_software_adapter(0));
    assert!(!is_software_adapter(1));
    assert!(is_software_adapter(2));
    assert!(is_software_adapter(3));
    assert!(!is_software_adapter(4));
    assert!(is_software_adapter(u32::MAX));
    assert!(!is_software_adapter(u32::MAX - 2));
}

#[test]
fn the_factory_is_made_for_debugging_in_a_debug_build_only() {
    assert_eq!(dxgi_factory_flags(true), 1);
    assert_eq!(dxgi_factory_flags(false), 0);
}

#[test]
fn a_device_is_gone_when_it_was_removed_or_reset() {
    assert!(is_device_removed(DXGI_ERROR_DEVICE_REMOVED));
    assert!(is_device_removed(DXGI_ERROR_DEVICE_RESET));
    assert!(is_device_removed(0x887A0005u32 as i32));
    assert!(is_device_removed(0x887A0007u32 as i32));
    assert!(!is_device_removed(0));
    assert!(!is_device_removed(0x887A0006u32 as i32));
    assert!(!is_device_removed(0x887A0001u32 as i32));
    assert!(!is_device_removed(0x80004005u32 as i32));
    assert!(!is_device_removed(i32::MIN));
    assert!(!is_device_removed(1));
}
