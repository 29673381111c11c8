//! Windows.

use crate::dmsoft::{spec_invoke, Dmsoft, ReturnsLong, ReturnsLongAt};
use crate::variant::{values, Value, Variant};
use vstd::prelude::*;

verus! {

#[allow(non_snake_case)]
impl Dmsoft {
    /// Releases the window that the automation object is bound to. The status in the reply is
    /// 1 on success and 0 on failure.
    ///
    /// The automation object declares the method as `long UnBindWindow()`.
    pub fn UnBindWindow(&self) -> (started: ReturnsLong)
        ensures
            started@ == spec_invoke(self@, "UnBindWindow"@, Seq::empty()),
    {
        let args: Vec<Variant> = Vec::new();
        proof {
            assert(values(args@) =~= Seq::empty());
        }
        ReturnsLong(self.Invoke("UnBindWindow", args))
    }

    /// Converts a position in the window `hwnd` to a position on the screen. The status in the
    /// reply is 1 on success and 0 on failure. The position goes to the two output slots.
    ///
    /// The automation object declares the method as `long ClientToScreen(long hwnd, VARIANT*
    /// x, VARIANT* y)`.
    pub fn ClientToScreen(&self, hwnd: i32) -> (started: ReturnsLongAt)
        ensures
            started@ == spec_invoke(
                self@,
                "ClientToScreen"@,
                seq![
                    Value::Long(hwnd),
                    Value::Ref(Box::new(Value::Empty)),
                    Value::Ref(Box::new(Value::Empty)),
                ].reverse(),
            ),
    {
        let args = vec![
            Dmsoft::pvarVal(Variant::Empty),
            Dmsoft::pvarVal(Variant::Empty),
            Dmsoft::longVar(hwnd),
        ];
        proof {
            assert(values(args@) =~= seq![
                Value::Long(hwnd),
                Value::Ref(Box::new(Value::Empty)),
                Value::Ref(Box::new(Value::Empty)),
            ].reverse());
        }
        ReturnsLongAt(self.Invoke("ClientToScreen", args))
    }

    /// Converts a position on the screen to a position in the window `hwnd`. The status in the
    /// reply is 1 on success and 0 on failure. The position goes to the two output slots.
    ///
    /// The automation object declares the method as `long ScreenToClient(long hwnd, VARIANT*
    /// x, VARIANT* y)`.
    pub fn ScreenToClient(&self, hwnd: i32) -> (started: ReturnsLongAt)
        ensures
            started@ == spec_invoke(
                self@,
                "ScreenToClient"@,
                seq![
                    Value::Long(hwnd),
                    Value::Ref(Box::new(Value::Empty)),
                    Value::Ref(Box::new(Value::Empty)),
                ].reverse(),
            ),
    {
        let args = vec![
            Dmsoft::pvarVal(Variant::Empty),
            Dmsoft::pvarVal(Variant::Empty),
            Dmsoft::longVar(hwnd),
        ];
        proof {
            assert(values(args@) =~= seq![
                Value::Long(hwnd),
                Value::Ref(Box::new(Value::Empty)),
                Value::Ref(Box::new(Value::Empty)),
            ].reverse());
        }
        ReturnsLongAt(self.Invoke("ScreenToClient", args))
    }
}

} // verus!
