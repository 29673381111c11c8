//! Pictures and colours.

use crate::dmsoft::{spec_invoke, Dmsoft, ReturnsLong, ReturnsLongAt, ReturnsText};
use crate::variant::{values, Value, Variant};
use vstd::prelude::*;

verus! {

#[allow(non_snake_case)]
impl Dmsoft {
    /// Saves the rectangle of the screen from `(x1, y1)` to `(x2, y2)` as a bitmap file. The
    /// status in the reply is 1 on success and 0 on failure.
    ///
    /// The automation object declares the method as `long Capture(long x1, long y1, long x2,
    /// long y2, const TCHAR* file_name)`.
    pub fn Capture(
        &self,
        x1: i32,
        y1: i32,
        x2: i32,
        y2: i32,
        file_name: &str,
    ) -> (started: ReturnsLong)
        ensures
            started@ == spec_invoke(
                self@,
                "Capture"@,
                seq![
                    Value::Long(x1),
                    Value::Long(y1),
                    Value::Long(x2),
                    Value::Long(y2),
                    Value::Str(file_name@),
                ].reverse(),
            ),
    {
        let args = vec![
            Dmsoft::bstrVal(file_name),
            Dmsoft::longVar(y2),
            Dmsoft::longVar(x2),
            Dmsoft::longVar(y1),
            Dmsoft::longVar(x1),
        ];
        proof {
            assert(values(args@) =~= seq![
                Value::Long(x1),
                Value::Long(y1),
                Value::Long(x2),
                Value::Long(y2),
                Value::Str(file_name@),
            ].reverse());
        }
        ReturnsLong(self.Invoke("Capture", args))
    }

    /// Searches the rectangle from `(x1, y1)` to `(x2, y2)` for a colour, with similarity
    /// `sim` and in the direction `dir`. The status in the reply is 1 if the colour was found
    /// and 0 if not; the position goes to the two output slots.
    ///
    /// The automation object declares the method as `long FindColor(long x1, long y1, long x2,
    /// long y2, const TCHAR* color, double sim, long dir, VARIANT* x, VARIANT* y)`. `sim` is
    /// given as the bit pattern of the float.
    pub fn FindColor(
        &self,
        x1: i32,
        y1: i32,
        x2: i32,
        y2: i32,
        color: &str,
        sim: u64,
        dir: i32,
    ) -> (started: ReturnsLongAt)
        ensures
            started@ == spec_invoke(
                self@,
                "FindColor"@,
                seq![
                    Value::Long(x1),
                    Value::Long(y1),
                    Value::Long(x2),
                    Value::Long(y2),
                    Value::Str(color@),
                    Value::Double(sim),
                    Value::Long(dir),
                    Value::Ref(Box::new(Value::Empty)),
                    Value::Ref(Box::new(Value::Empty)),
                ].reverse(),
            ),
    {
        let args = vec![
            Dmsoft::pvarVal(Variant::Empty),
            Dmsoft::pvarVal(Variant::Empty),
            Dmsoft::longVar(dir),
            Dmsoft::doubleVar(sim),
            Dmsoft::bstrVal(color),
            Dmsoft::longVar(y2),
            Dmsoft::longVar(x2),
            Dmsoft::longVar(y1),
            Dmsoft::longVar(x1),
        ];
        proof {
            assert(values(args@) =~= seq![
                Value::Long(x1),
                Value::Long(y1),
                Value::Long(x2),
                Value::Long(y2),
                Value::Str(color@),
                Value::Double(sim),
                Value::Long(dir),
                Value::Ref(Box::new(Value::Empty)),
                Value::Ref(Box::new(Value::Empty)),
            ].reverse());
        }
        ReturnsLongAt(self.Invoke("FindColor", args))
    }

    /// Asks for the colour of the point `(x, y)`, as a string of the form `RRGGBB`.
    ///
    /// The automation object declares the method as `CString GetColor(long x, long y)`.
    pub fn GetColor(&self, x: i32, y: i32) -> (started: ReturnsText)
        ensures
            started@ == spec_invoke(
                self@,
                "GetColor"@,
                seq![Value::Long(x), Value::Long(y)].reverse(),
            ),
    {
        let args = vec![Dmsoft::longVar(y), Dmsoft::longVar(x)];
        proof {
            assert(values(args@) =~= seq![Value::Long(x), Value::Long(y)].reverse());
        }
        ReturnsText(self.Invoke("GetColor", args))
    }

    /// Asks for the colour of the point `(x, y)`, as a string of the form `BBGGRR`.
    ///
    /// The automation object declares the method as `CString GetColorBGR(long x, long y)`.
    pub fn GetColorBGR(&self, x: i32, y: i32) -> (started: ReturnsText)
        ensures
            started@ == spec_invoke(
                self@,
                "GetColorBGR"@,
                seq![Value::Long(x), Value::Long(y)].reverse(),
            ),
    {
        let args = vec![Dmsoft::longVar(y), Dmsoft::longVar(x)];
        proof {
            assert(values(args@) =~= seq![Value::Long(x), Value::Long(y)].reverse());
        }
        ReturnsText(self.Invoke("GetColorBGR", args))
    }

    /// Converts a colour of the form `RRGGBB` to the form `BBGGRR`.
    ///
    /// The automation object declares the method as `CString RGB2BGR(const TCHAR* rgb_color)`.
    pub fn RGB2BGR(&self, rgb_color: &str) -> (started: ReturnsText)
        ensures
            started@ == spec_invoke(self@, "RGB2BGR"@, seq![Value::Str(rgb_color@)].reverse()),
    {
        let args = vec![Dmsoft::bstrVal(rgb_color)];
        proof {
            assert(values(args@) =~= seq![Value::Str(rgb_color@)].reverse());
        }
        ReturnsText(self.Invoke("RGB2BGR", args))
    }

    /// Converts a colour of the form `BBGGRR` to the form `RRGGBB`.
    ///
    /// The automation object declares the method as `CString BGR2RGB(const TCHAR* bgr_color)`.
    pub fn BGR2RGB(&self, bgr_color: &str) -> (started: ReturnsText)
        ensures
            started@ == spec_invoke(self@, "BGR2RGB"@, seq![Value::Str(bgr_color@)].reverse()),
    {
        let args = vec![Dmsoft::bstrVal(bgr_color)];
        proof {
            assert(values(args@) =~= seq![Value::Str(bgr_color@)].reverse());
        }
        ReturnsText(self.Invoke("BGR2RGB", args))
    }

    /// Compares the colour of the point `(x, y)` with `color`, with similarity `sim`. The
    /// status in the reply is 0 if the colours match and 1 if they do not.
    ///
    /// The automation object declares the method as `long CmpColor(long x, long y, const
    /// TCHAR* color, double sim)`. `sim` is given as the bit pattern of the float.
    pub fn CmpColor(&self, x: i32, y: i32, color: &str, sim: u64) -> (started: ReturnsLong)
        ensures
            started@ == spec_invoke(
                self@,
                "CmpColor"@,
                seq![
                    Value::Long(x),
                    Value::Long(y),
                    Value::Str(color@),
                    Value::Double(sim),
                ].reverse(),
            ),
    {
        let args = vec![
            Dmsoft::doubleVar(sim),
            Dmsoft::bstrVal(color),
            Dmsoft::longVar(y),
            Dmsoft::longVar(x),
        ];
        proof {
            assert(values(args@) =~= seq![
                Value::Long(x),
                Value::Long(y),
                Value::Str(color@),
                Value::Double(sim),
            ].reverse());
        }
        ReturnsLong(self.Invoke("CmpColor", args))
    }

    /// Searches the rectangle from `(x1, y1)` to `(x2, y2)` for every point of a colour, with
    /// similarity `sim` and in the direction `dir`. The reply lists the positions in one
    /// string, which `GetResultCount` and `GetResultPos` take apart.
    ///
    /// The automation object declares the method as `CString FindColorEx(long x1, long y1,
    /// long x2, long y2, const TCHAR* color, double sim, long dir)`. `sim` is given as the bit
    /// pattern of the float.
    pub fn FindColorEx(
        &self,
        x1: i32,
        y1: i32,
        x2: i32,
        y2: i32,
        color: &str,
        sim: u64,
        dir: i32,
    ) -> (started: ReturnsText)
        ensures
            started@ == spec_invoke(
                self@,
                "FindColorEx"@,
                seq![
                    Value::Long(x1),
                    Value::Long(y1),
                    Value::Long(x2),
                    Value::Long(y2),
                    Value::Str(color@),
                    Value::Double(sim),
                    Value::Long(dir),
                ].reverse(),
            ),
    {
        let args = vec![
            Dmsoft::longVar(dir),
            Dmsoft::doubleVar(sim),
            Dmsoft::bstrVal(color),
            Dmsoft::longVar(y2),
            Dmsoft::longVar(x2),
            Dmsoft::longVar(y1),
            Dmsoft::longVar(x1),
        ];
        proof {
            assert(values(args@) =~= seq![
                Value::Long(x1),
                Value::Long(y1),
                Value::Long(x2),
                Value::Long(y2),
                Value::Str(color@),
                Value::Double(sim),
                Value::Long(dir),
            ].reverse());
        }
        ReturnsText(self.Invoke("FindColorEx", args))
    }
}

} // verus!
