//! Recognition of text.

use crate::dmsoft::{spec_invoke, Dmsoft, ReturnsLong, ReturnsLongAt, ReturnsText};
use crate::variant::{values, Value, Variant};
use vstd::prelude::*;

verus! {

#[allow(non_snake_case)]
impl Dmsoft {
    /// Recognises the text in the rectangle of the screen from `(x1, y1)` to `(x2, y2)`,
    /// written in `color`, with similarity `sim`.
    ///
    /// The automation object declares the method as `CString Ocr(long x1, long y1, long x2,
    /// long y2, const TCHAR* color, double sim)`. `sim` is given as the bit pattern of the
    /// float.
    pub fn Ocr(
        &self,
        x1: i32,
        y1: i32,
        x2: i32,
        y2: i32,
        color: &str,
        sim: u64,
    ) -> (started: ReturnsText)
        ensures
            started@ == spec_invoke(
                self@,
                "Ocr"@,
                seq![
                    Value::Long(x1),
                    Value::Long(y1),
                    Value::Long(x2),
                    Value::Long(y2),
                    Value::Str(color@),
                    Value::Double(sim),
                ].reverse(),
            ),
    {
        let args = vec![
            Dmsoft::doubleVar(sim),
            Dmsoft::bstrVal(color),
            Dmsoft::longVar(y2),
            Dmsoft::longVar(x2),
            Dmsoft::longVar(y1),
            Dmsoft::longVar(x1),
        ];
        proof {
            assert(values(args@) =~= seq![
                Value::Long(x1),
                Value::Long(y1),
                Value::Long(x2),
                Value::Long(y2),
                Value::Str(color@),
                Value::Double(sim),
            ].reverse());
        }
        ReturnsText(self.Invoke("Ocr", args))
    }

    /// Searches the rectangle from `(x1, y1)` to `(x2, y2)` for one of the strings in `str`,
    /// which are separated by `|`, written in `color`, with similarity `sim`. The status in
    /// the reply is the index of the string that was found, or -1; the position goes to the
    /// two output slots.
    ///
    /// The automation object declares the method as `long FindStr(long x1, long y1, long x2,
    /// long y2, const TCHAR* str, const TCHAR* color, double sim, VARIANT* x, VARIANT* y)`.
    /// `sim` is given as the bit pattern of the float.
    pub fn FindStr(
        &self,
        x1: i32,
        y1: i32,
        x2: i32,
        y2: i32,
        str: &str,
        color: &str,
        sim: u64,
    ) -> (started: ReturnsLongAt)
        ensures
            started@ == spec_invoke(
                self@,
                "FindStr"@,
                seq![
                    Value::Long(x1),
                    Value::Long(y1),
                    Value::Long(x2),
                    Value::Long(y2),
                    Value::Str(str@),
                    Value::Str(color@),
                    Value::Double(sim),
                    Value::Ref(Box::new(Value::Empty)),
                    Value::Ref(Box::new(Value::Empty)),
                ].reverse(),
            ),
    {
        let args = vec![
            Dmsoft::pvarVal(Variant::Empty),
            Dmsoft::pvarVal(Variant::Empty),
            Dmsoft::doubleVar(sim),
            Dmsoft::bstrVal(color),
            Dmsoft::bstrVal(str),
            Dmsoft::longVar(y2),
            Dmsoft::longVar(x2),
            Dmsoft::longVar(y1),
            Dmsoft::longVar(x1),
        ];
        proof {
            assert(values(args@) =~= seq![
                Value::Long(x1),
                Value::Long(y1),
                Value::Long(x2),
                Value::Long(y2),
                Value::Str(str@),
                Value::Str(color@),
                Value::Double(sim),
                Value::Ref(Box::new(Value::Empty)),
                Value::Ref(Box::new(Value::Empty)),
            ].reverse());
        }
        ReturnsLongAt(self.Invoke("FindStr", args))
    }

    /// Counts the positions in a string of positions.
    ///
    /// The automation object declares the method as `long GetResultCount(const TCHAR* str)`.
    pub fn GetResultCount(&self, str: &str) -> (started: ReturnsLong)
        ensures
            started@ == spec_invoke(
                self@,
                "GetResultCount"@,
                seq![Value::Str(str@)].reverse(),
            ),
    {
        let args = vec![Dmsoft::bstrVal(str)];
        proof {
            assert(values(args@) =~= seq![Value::Str(str@)].reverse());
        }
        ReturnsLong(self.Invoke("GetResultCount", args))
    }

    /// Takes the position with the given index out of a string of positions. The status in the
    /// reply is 1 on success and 0 on failure. The position goes to the two output slots.
    ///
    /// The automation object declares the method as `long GetResultPos(const TCHAR* str, long
    /// index, VARIANT* x, VARIANT* y)`.
    pub fn GetResultPos(&self, str: &str, index: i32) -> (started: ReturnsLongAt)
        ensures
            started@ == spec_invoke(
                self@,
                "GetResultPos"@,
                seq![
                    Value::Str(str@),
                    Value::Long(index),
                    Value::Ref(Box::new(Value::Empty)),
                    Value::Ref(Box::new(Value::Empty)),
                ].reverse(),
            ),
    {
        let args = vec![
            Dmsoft::pvarVal(Variant::Empty),
            Dmsoft::pvarVal(Variant::Empty),
            Dmsoft::longVar(index),
            Dmsoft::bstrVal(str),
        ];
        proof {
            assert(values(args@) =~= seq![
                Value::Str(str@),
                Value::Long(index),
                Value::Ref(Box::new(Value::Empty)),
                Value::Ref(Box::new(Value::Empty)),
            ].reverse());
        }
        ReturnsLongAt(self.Invoke("GetResultPos", args))
    }

    /// Chooses the dictionary that text is recognised with. The status in the reply is 1 on
    /// success and 0 on failure.
    ///
    /// The automation object declares the method as `long UseDict(long index)`.
    pub fn UseDict(&self, index: i32) -> (started: ReturnsLong)
        ensures
            started@ == spec_invoke(self@, "UseDict"@, seq![Value::Long(index)].reverse()),
    {
        let args = vec![Dmsoft::longVar(index)];
        proof {
            assert(values(args@) =~= seq![Value::Long(index)].reverse());
        }
        ReturnsLong(self.Invoke("UseDict", args))
    }

    /// Sets the password of the dictionaries. The status in the reply is 1 on success and 0 on
    /// failure.
    ///
    /// The automation object declares the method as `long SetDictPwd(const TCHAR* pwd)`.
    pub fn SetDictPwd(&self, pwd: &str) -> (started: ReturnsLong)
        ensures
            started@ == spec_invoke(self@, "SetDictPwd"@, seq![Value::Str(pwd@)].reverse()),
    {
        let args = vec![Dmsoft::bstrVal(pwd)];
        proof {
            assert(values(args@) =~= seq![Value::Str(pwd@)].reverse());
        }
        ReturnsLong(self.Invoke("SetDictPwd", args))
    }

    /// Recognises the text in the rectangle from `(x1, y1)` to `(x2, y2)` of a picture file,
    /// written in `color`, with similarity `sim`.
    ///
    /// The automation object declares the method as `CString OcrInFile(long x1, long y1, long
    /// x2, long y2, const TCHAR* pic_name, const TCHAR* color, double sim)`. `sim` is given as
    /// the bit pattern of the float.
    pub fn OcrInFile(
        &self,
        x1: i32,
        y1: i32,
        x2: i32,
        y2: i32,
        pic_name: &str,
        color: &str,
        sim: u64,
    ) -> (started: ReturnsText)
        ensures
            started@ == spec_invoke(
                self@,
                "OcrInFile"@,
                seq![
                    Value::Long(x1),
                    Value::Long(y1),
                    Value::Long(x2),
                    Value::Long(y2),
                    Value::Str(pic_name@),
                    Value::Str(color@),
                    Value::Double(sim),
                ].reverse(),
            ),
    {
        let args = vec![
            Dmsoft::doubleVar(sim),
            Dmsoft::bstrVal(color),
            Dmsoft::bstrVal(pic_name),
            Dmsoft::longVar(y2),
            Dmsoft::longVar(x2),
            Dmsoft::longVar(y1),
            Dmsoft::longVar(x1),
        ];
        proof {
            assert(values(args@) =~= seq![
                Value::Long(x1),
                Value::Long(y1),
                Value::Long(x2),
                Value::Long(y2),
                Value::Str(pic_name@),
                Value::Str(color@),
                Value::Double(sim),
            ].reverse());
        }
        ReturnsText(self.Invoke("OcrInFile", args))
    }

    /// Sets the smallest gap between two rows of text. The status in the reply is 1 on success
    /// and 0 on failure.
    ///
    /// The automation object declares the method as `long SetMinRowGap(long row_gap)`.
    pub fn SetMinRowGap(&self, row_gap: i32) -> (started: ReturnsLong)
        ensures
            started@ == spec_invoke(
                self@,
                "SetMinRowGap"@,
                seq![Value::Long(row_gap)].reverse(),
            ),
    {
        let args = vec![Dmsoft::longVar(row_gap)];
        proof {
            assert(values(args@) =~= seq![Value::Long(row_gap)].reverse());
        }
        ReturnsLong(self.Invoke("SetMinRowGap", args))
    }

    /// Sets the smallest gap between two columns of text. The status in the reply is 1 on
    /// success and 0 on failure.
    ///
    /// The automation object declares the method as `long SetMinColGap(long col_gap)`.
    pub fn SetMinColGap(&self, col_gap: i32) -> (started: ReturnsLong)
        ensures
            started@ == spec_invoke(
                self@,
                "SetMinColGap"@,
                seq![Value::Long(col_gap)].reverse(),
            ),
    {
        let args = vec![Dmsoft::longVar(col_gap)];
        proof {
            assert(values(args@) =~= seq![Value::Long(col_gap)].reverse());
        }
        ReturnsLong(self.Invoke("SetMinColGap", args))
    }
}

} // verus!
