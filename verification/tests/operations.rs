use dm::Variant::{Double, Long};
use dm::{Dmsoft, KeyMap, ReturnsLong, ReturnsLongAt, ReturnsText, Step, Variant};

/// Checks that `step` asks for the lookup of `name`, and holds `args`.
fn starts(step: Step, name: &str, args: Vec<Variant>) {
    assert_eq!(step, Step::Lookup { name: name.to_string(), args });
}

fn text(s: &str) -> Variant {
    Variant::Str(s.to_string())
}

fn slot() -> Variant {
    Variant::Ref(Box::new(Variant::Empty))
}

fn bits(x: f64) -> u64 {
    x.to_bits()
}

#[test]
fn key_down_passes_the_key_code() {
    let dm = Dmsoft::new();
    starts(dm.KeyDown(KeyMap::KEY_A()).0, "KeyDown", vec![Long(65)]);
    starts(dm.KeyDown(KeyMap::new("any", -2)).0, "KeyDown", vec![Long(-2)]);
}

#[test]
fn key_up_passes_the_key_code() {
    let dm = Dmsoft::new();
    starts(dm.KeyUp(KeyMap::KEY_ENTER()).0, "KeyUp", vec![Long(13)]);
}

#[test]
fn key_press_passes_the_key_code() {
    let dm = Dmsoft::new();
    let key = KeyMap::KEY_F5();
    starts(dm.KeyPress(&key).0, "KeyPress", vec![Long(116)]);
}

#[test]
fn the_button_operations_take_no_argument() {
    let dm = Dmsoft::new();
    starts(dm.LeftClick().0, "LeftClick", vec![]);
    starts(dm.RightClick().0, "RightClick", vec![]);
    starts(dm.MiddleClick().0, "MiddleClick", vec![]);
    starts(dm.LeftDoubleClick().0, "LeftDoubleClick", vec![]);
    starts(dm.LeftDown().0, "LeftDown", vec![]);
    starts(dm.LeftUp().0, "LeftUp", vec![]);
    starts(dm.RightDown().0, "RightDown", vec![]);
    starts(dm.RightUp().0, "RightUp", vec![]);
}

#[test]
fn move_to_passes_y_before_x() {
    let dm = Dmsoft::new();
    starts(dm.MoveTo(1, 2).0, "MoveTo", vec![Long(2), Long(1)]);
    starts(dm.MoveTo(0, 0).0, "MoveTo", vec![Long(0), Long(0)]);
}

#[test]
fn move_r_passes_ry_before_rx() {
    let dm = Dmsoft::new();
    starts(dm.MoveR(-10, 30).0, "MoveR", vec![Long(30), Long(-10)]);
}

#[test]
fn ver_and_get_base_path_take_no_argument() {
    let dm = Dmsoft::new();
    starts(dm.Ver().0, "Ver", vec![]);
    starts(dm.GetBasePath().0, "GetBasePath", vec![]);
}

#[test]
fn set_path_passes_the_path() {
    let dm = Dmsoft::new();
    starts(dm.SetPath("c:\\").0, "SetPath", vec![text("c:\\")]);
    starts(dm.SetPath(".\\MyData").0, "SetPath", vec![text(".\\MyData")]);
}

#[test]
fn str_str_passes_its_second_string_first() {
    let dm = Dmsoft::new();
    starts(dm.StrStr("first", "second").0, "StrStr", vec![text("second"), text("first")]);
}

#[test]
fn send_command_passes_the_command() {
    let dm = Dmsoft::new();
    starts(dm.SendCommand("go").0, "SendCommand", vec![text("go")]);
}

#[test]
fn show_scr_msg_passes_its_arguments_last_first() {
    let dm = Dmsoft::new();
    starts(
        dm.ShowScrMsg(1, 2, 3, 4, "hello", "ff0000").0,
        "ShowScrMsg",
        vec![text("ff0000"), text("hello"), Long(4), Long(3), Long(2), Long(1)],
    );
}

#[test]
fn capture_passes_its_arguments_last_first() {
    let dm = Dmsoft::new();
    starts(
        dm.Capture(0, 10, 2000, 2010, "screen.bmp").0,
        "Capture",
        vec![text("screen.bmp"), Long(2010), Long(2000), Long(10), Long(0)],
    );
}

#[test]
fn find_color_passes_two_empty_slots_first() {
    let dm = Dmsoft::new();
    starts(
        dm.FindColor(1, 2, 3, 4, "123456-000000", bits(0.9), 5).0,
        "FindColor",
        vec![
            slot(),
            slot(),
            Long(5),
            Double(bits(0.9)),
            text("123456-000000"),
            Long(4),
            Long(3),
            Long(2),
            Long(1),
        ],
    );
}

#[test]
fn get_color_passes_y_before_x() {
    let dm = Dmsoft::new();
    starts(dm.GetColor(7, 8).0, "GetColor", vec![Long(8), Long(7)]);
    starts(dm.GetColorBGR(7, 8).0, "GetColorBGR", vec![Long(8), Long(7)]);
}

#[test]
fn the_colour_conversions_pass_the_colour() {
    let dm = Dmsoft::new();
    starts(dm.RGB2BGR("112233").0, "RGB2BGR", vec![text("112233")]);
    starts(dm.BGR2RGB("332211").0, "BGR2RGB", vec![text("332211")]);
}

#[test]
fn cmp_color_is_invoked_under_its_own_name() {
    let dm = Dmsoft::new();
    starts(
        dm.CmpColor(1, 2, "ffffff", bits(1.0)).0,
        "CmpColor",
        vec![Double(bits(1.0)), text("ffffff"), Long(2), Long(1)],
    );
}

#[test]
fn find_color_ex_passes_its_arguments_last_first() {
    let dm = Dmsoft::new();
    starts(
        dm.FindColorEx(1, 2, 3, 4, "aabbcc", bits(0.5), 0).0,
        "FindColorEx",
        vec![Long(0), Double(bits(0.5)), text("aabbcc"), Long(4), Long(3), Long(2), Long(1)],
    );
}

#[test]
fn ocr_passes_its_arguments_last_first() {
    let dm = Dmsoft::new();
    starts(
        dm.Ocr(0, 0, 2000, 2000, "ffffff-000000", bits(1.0)).0,
        "Ocr",
        vec![
            Double(0x3ff0_0000_0000_0000),
            text("ffffff-000000"),
            Long(2000),
            Long(2000),
            Long(0),
            Long(0),
        ],
    );
    starts(
        dm.Ocr(1, 2, 3, 4, "c", 5).0,
        "Ocr",
        vec![Double(5), text("c"), Long(4), Long(3), Long(2), Long(1)],
    );
}

#[test]
fn find_str_passes_two_empty_slots_first() {
    let dm = Dmsoft::new();
    starts(
        dm.FindStr(1, 2, 3, 4, "长安|洛阳", "000000-000000", bits(1.0)).0,
        "FindStr",
        vec![
            slot(),
            slot(),
            Double(bits(1.0)),
            text("000000-000000"),
            text("长安|洛阳"),
            Long(4),
            Long(3),
            Long(2),
            Long(1),
        ],
    );
}

#[test]
fn get_result_count_passes_the_positions() {
    let dm = Dmsoft::new();
    starts(dm.GetResultCount("1,2|3,4").0, "GetResultCount", vec![text("1,2|3,4")]);
}

#[test]
fn get_result_pos_passes_two_empty_slots_first() {
    let dm = Dmsoft::new();
    starts(
        dm.GetResultPos("1,2|3,4", 1).0,
        "GetResultPos",
        vec![slot(), slot(), Long(1), text("1,2|3,4")],
    );
}

#[test]
fn the_dictionary_operations_pass_their_argument() {
    let dm = Dmsoft::new();
    starts(dm.UseDict(2).0, "UseDict", vec![Long(2)]);
    starts(dm.SetDictPwd("secret").0, "SetDictPwd", vec![text("secret")]);
}

#[test]
fn ocr_in_file_passes_its_arguments_last_first() {
    let dm = Dmsoft::new();
    starts(
        dm.OcrInFile(1, 2, 3, 4, "test.bmp", "000000-000000", bits(0.25)).0,
        "OcrInFile",
        vec![
            Double(bits(0.25)),
            text("000000-000000"),
            text("test.bmp"),
            Long(4),
            Long(3),
            Long(2),
            Long(1),
        ],
    );
}

#[test]
fn the_gap_operations_pass_the_gap() {
    let dm = Dmsoft::new();
    starts(dm.SetMinRowGap(3).0, "SetMinRowGap", vec![Long(3)]);
    starts(dm.SetMinColGap(4).0, "SetMinColGap", vec![Long(4)]);
}

#[test]
fn un_bind_window_takes_no_argument() {
    let dm = Dmsoft::new();
    starts(dm.UnBindWindow().0, "UnBindWindow", vec![]);
}

#[test]
fn the_coordinate_conversions_pass_two_empty_slots_and_the_window() {
    let dm = Dmsoft::new();
    starts(dm.ClientToScreen(77).0, "ClientToScreen", vec![slot(), slot(), Long(77)]);
    starts(dm.ScreenToClient(78).0, "ScreenToClient", vec![slot(), slot(), Long(78)]);
}

#[test]
fn every_operation_resolves_its_own_name_once() {
    let mut dm = Dmsoft::new();
    let Step::Lookup { name, args } = dm.CmpColor(0, 0, "ffffff", bits(1.0)).0 else {
        unreachable!()
    };
    let Step::Call(made) = dm.proceed(&name, args, Some(21)) else { unreachable!() };
    assert_eq!(made.id, 21);
    let Step::Call(again) = dm.CmpColor(5, 6, "000000", bits(0.5)).0 else { unreachable!() };
    assert_eq!(again.id, 21);
    assert_eq!(again.args, vec![Double(bits(0.5)), text("000000"), Long(6), Long(5)]);
    starts(dm.UnBindWindow().0, "UnBindWindow", vec![]);
}

#[test]
fn the_operations_that_return_an_integer_say_so() {
    let dm = Dmsoft::new();
    let key = KeyMap::KEY_A();
    let started: [ReturnsLong; 25] = [
        dm.KeyDown(KeyMap::KEY_A()),
        dm.KeyUp(KeyMap::KEY_A()),
        dm.KeyPress(&key),
        dm.LeftClick(),
        dm.RightClick(),
        dm.MiddleClick(),
        dm.LeftDoubleClick(),
        dm.LeftDown(),
        dm.LeftUp(),
        dm.RightDown(),
        dm.RightUp(),
        dm.MoveTo(0, 0),
        dm.MoveR(0, 0),
        dm.SetPath(""),
        dm.StrStr("", ""),
        dm.SendCommand(""),
        dm.ShowScrMsg(0, 0, 0, 0, "", ""),
        dm.Capture(0, 0, 0, 0, ""),
        dm.CmpColor(0, 0, "", 0),
        dm.GetResultCount(""),
        dm.UseDict(0),
        dm.SetDictPwd(""),
        dm.SetMinRowGap(0),
        dm.SetMinColGap(0),
        dm.UnBindWindow(),
    ];
    assert!(started.iter().all(|s| matches!(s.0, Step::Lookup { .. })));
}

#[test]
fn the_operations_that_return_a_string_say_so() {
    let dm = Dmsoft::new();
    let started: [ReturnsText; 9] = [
        dm.Ver(),
        dm.GetBasePath(),
        dm.GetColor(0, 0),
        dm.GetColorBGR(0, 0),
        dm.RGB2BGR(""),
        dm.BGR2RGB(""),
        dm.FindColorEx(0, 0, 0, 0, "", 0, 0),
        dm.Ocr(0, 0, 0, 0, "", 0),
        dm.OcrInFile(0, 0, 0, 0, "", "", 0),
    ];
    assert!(started.iter().all(|s| matches!(s.0, Step::Lookup { .. })));
}

#[test]
fn the_operations_that_write_a_position_say_so() {
    let dm = Dmsoft::new();
    let started: [ReturnsLongAt; 5] = [
        dm.FindColor(0, 0, 0, 0, "", 0, 0),
        dm.FindStr(0, 0, 0, 0, "", "", 0),
        dm.GetResultPos("", 0),
        dm.ClientToScreen(0),
        dm.ScreenToClient(0),
    ];
    for ReturnsLongAt(step) in started {
        let Step::Lookup { args, .. } = step else { unreachable!() };
        assert_eq!(args[0], slot());
        assert_eq!(args[1], slot());
        assert!(args[2..].iter().all(|arg| *arg != slot()));
    }
}
