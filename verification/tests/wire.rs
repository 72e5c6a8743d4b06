use skippy::registry::Env;
use skippy::text::{cut_line, frame, trim};
use skippy::transport::{Adapter, Handshake, TcpPhy};
use skippy::{ErrorKind, SkippyError};

#[test]
fn identify_against_a_scripted_instrument() {
    let mut env = Env::new();
    let dial = Env::dial("tcp://127.0.0.1:5025").unwrap();
    let dev = env.connect(&dial, Handshake::Established).unwrap();
    let exchange = env.scpi(dev, "*IDN?").unwrap();
    assert_eq!(exchange.request, "*IDN?\n");
    assert!(exchange.request.ends_with('\n'));
    let reply = exchange.reply(Some("MOCK,INSTR,0,1.0\n")).unwrap();
    assert_eq!(reply, "MOCK,INSTR,0,1.0");
    assert_eq!(TcpPhy::receive(Some("MOCK,INSTR,0,1.0\n")).unwrap(), "MOCK,INSTR,0,1.0");
}

#[test]
fn frame_appends_one_line_feed() {
    assert_eq!(frame("*IDN?"), "*IDN?\n");
    assert_eq!(frame(""), "\n");
    assert_eq!(frame("MEAS:VOLT? (@1,2)\n"), "MEAS:VOLT? (@1,2)\n\n");
    assert_eq!(frame("\u{b5}V"), "\u{b5}V\n");
}

#[test]
fn trim_strips_both_ends_and_keeps_the_middle() {
    assert_eq!(trim("MOCK,INSTR,0,1.0\n"), "MOCK,INSTR,0,1.0");
    assert_eq!(trim("  +1.5E-3 V \r\n"), "+1.5E-3 V");
    assert_eq!(trim("\t a \t b \t"), "a \t b");
    assert_eq!(trim("x"), "x");
    assert_eq!(trim("no terminator"), "no terminator");
}

#[test]
fn trim_of_nothing_but_white_space_is_empty() {
    assert_eq!(trim(""), "");
    assert_eq!(trim("\n"), "");
    assert_eq!(trim(" \t\r\n\u{b}\u{c} "), "");
}

#[test]
fn trim_knows_the_white_space_beyond_ascii() {
    assert_eq!(trim("\u{85}\u{a0}\u{1680}a\u{2000}\u{200a}\u{2028}\u{2029}"), "a");
    assert_eq!(trim("\u{202f}\u{205f}\u{3000}12\u{3000}34\u{3000}"), "12\u{3000}34");
    assert_eq!(trim("\u{200b}a\u{200b}"), "\u{200b}a\u{200b}");
    assert_eq!(trim("\u{180e}a\u{feff}"), "\u{180e}a\u{feff}");
    assert_eq!(trim("\u{8}a\u{e}\u{1f}"), "\u{8}a\u{e}\u{1f}");
}

#[test]
fn trim_agrees_with_the_standard_library() {
    let samples = [
        "",
        " ",
        "a",
        " a",
        "a ",
        " a b ",
        "\r\n",
        "\u{a0}x\u{a0}",
        "\u{e9}t\u{e9}\n",
        "  \u{4e2d}\u{6587}  ",
        "\u{1f600} \n",
    ];
    for sample in samples {
        assert_eq!(trim(sample), sample.trim());
    }
}

#[test]
fn failed_exchange_is_a_transport_error() {
    let error = TcpPhy::receive(None).unwrap_err();
    assert_eq!(error, SkippyError::TransportFailed);
    assert_eq!(error.kind(), ErrorKind::Transport);
    let mut env = Env::new();
    let dial = Env::dial("tcp://127.0.0.1:5025").unwrap();
    let dev = env.connect(&dial, Handshake::Established).unwrap();
    let exchange = env.scpi(dev, "*IDN?").unwrap();
    assert_eq!(exchange.reply(None).unwrap_err(), SkippyError::TransportFailed);
    assert_eq!(env.len(), 1);
    assert_eq!(env.get(dev), Some(Adapter::Tcp(TcpPhy { link: 0 })));
}

#[test]
fn end_of_stream_gives_what_has_arrived() {
    assert_eq!(TcpPhy::receive(Some("")).unwrap(), "");
    assert_eq!(TcpPhy::receive(Some("PART")).unwrap(), "PART");
}

#[test]
fn transport_appends_the_terminator() {
    let phy = TcpPhy { link: 7 };
    let exchange = phy.send("*OPC?");
    assert_eq!(exchange.link, 7);
    assert_eq!(exchange.request, "*OPC?\n");
    let exchange = phy.send("");
    assert_eq!(exchange.request, "\n");
    let exchange = phy.send("ends in one\n");
    assert_eq!(exchange.request, "ends in one\n\n");
}

#[test]
fn adapter_sends_as_its_transport_does() {
    let phy = TcpPhy { link: 7 };
    let exchange = Adapter::Tcp(phy).scpi("*OPC?");
    assert_eq!(exchange.link, 7);
    assert_eq!(exchange.request, "*OPC?\n");
    assert_eq!(exchange.request, phy.send("*OPC?").request);
}

#[test]
fn first_line_ends_before_the_first_line_feed() {
    assert_eq!(cut_line("one\ntwo\nthree"), "one");
    assert_eq!(cut_line("one\n"), "one");
    assert_eq!(cut_line("one"), "one");
    assert_eq!(cut_line("\none"), "");
    assert_eq!(cut_line(""), "");
    assert_eq!(cut_line("\u{e9}t\u{e9}\r\nx"), "\u{e9}t\u{e9}\r");
    assert_eq!(cut_line("a\u{2028}b\u{b}c\nd"), "a\u{2028}b\u{b}c");
}

#[test]
fn reply_is_one_line() {
    assert_eq!(TcpPhy::receive(Some(" 1.5 \r\n 2.5 \r\n")).unwrap(), "1.5");
    assert_eq!(TcpPhy::receive(Some("A\nB")).unwrap(), "A");
    assert_eq!(TcpPhy::receive(Some("\nB\n")).unwrap(), "");
    assert_eq!(TcpPhy::receive(Some(" \t\nB")).unwrap(), "");
    let exchange = TcpPhy { link: 1 }.send("*IDN?");
    assert_eq!(exchange.reply(Some("MOCK,INSTR,0,1.0\nignored\n")).unwrap(), "MOCK,INSTR,0,1.0");
}

#[test]
fn transport_is_made_only_of_an_established_stream() {
    assert_eq!(TcpPhy::connect(Handshake::Established, 4), Ok(TcpPhy { link: 4 }));
    assert_eq!(TcpPhy::connect(Handshake::Refused, 4), Err(SkippyError::ConnectFailed));
    assert_eq!(TcpPhy::connect(Handshake::BannerFailed, 4), Err(SkippyError::ConnectFailed));
    let dial = Env::dial("tcp://127.0.0.1:5025").unwrap();
    let adapter = Adapter::connect(&dial, Handshake::Established, 9);
    assert_eq!(adapter, Ok(Adapter::Tcp(TcpPhy { link: 9 })));
    let refused = Adapter::connect(&dial, Handshake::Refused, 9);
    assert_eq!(refused, Err(SkippyError::ConnectFailed));
}

#[test]
fn messages_name_each_failure() {
    assert_eq!(SkippyError::UnsupportedAddress.message(), "Unsupported address");
    assert_eq!(SkippyError::UnsupportedProtocol.message(), "Unsupported protocol");
    assert_eq!(SkippyError::ConnectFailed.message(), "Connect failed");
    assert_eq!(SkippyError::RegistryFull.message(), "Too many devices");
    assert_eq!(SkippyError::DeviceDisconnected.message(), "Device disconnected");
    assert_eq!(SkippyError::TransportFailed.message(), "Transport failed");
}

#[test]
fn kinds_group_the_failures() {
    assert_eq!(SkippyError::UnsupportedAddress.kind(), ErrorKind::Configuration);
    assert_eq!(SkippyError::UnsupportedProtocol.kind(), ErrorKind::Configuration);
    assert_eq!(SkippyError::ConnectFailed.kind(), ErrorKind::Connection);
    assert_eq!(SkippyError::RegistryFull.kind(), ErrorKind::Connection);
    assert_eq!(SkippyError::DeviceDisconnected.kind(), ErrorKind::StaleHandle);
    assert_eq!(SkippyError::TransportFailed.kind(), ErrorKind::Transport);
}

fn listed_as_white_space(c: char) -> bool {
    matches!(
        c,
        '\u{9}'..='\u{d}'
            | ' '
            | '\u{85}'
            | '\u{a0}'
            | '\u{1680}'
            | '\u{2000}'..='\u{200a}'
            | '\u{2028}'
            | '\u{2029}'
            | '\u{202f}'
            | '\u{205f}'
            | '\u{3000}'
    )
}

#[test]
fn trim_takes_off_exactly_the_listed_characters() {
    let mut white = 0;
    for code in 0..=0x10ffff_u32 {
        if let Some(c) = char::from_u32(code) {
            let alone = c.to_string();
            assert_eq!(trim(&alone).is_empty(), listed_as_white_space(c), "U+{:04X}", code);
            assert_eq!(c.is_whitespace(), listed_as_white_space(c), "U+{:04X}", code);
            if listed_as_white_space(c) {
                white += 1;
            }
        }
    }
    assert_eq!(white, 25);
}
