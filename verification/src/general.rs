//! The automation object itself, and what belongs nowhere else.

use crate::dmsoft::{spec_invoke, Dmsoft, ReturnsLong, ReturnsText};
use crate::variant::{values, Value, Variant};
use vstd::prelude::*;

verus! {

#[allow(non_snake_case)]
impl Dmsoft {
    /// Asks for the version of the automation object.
    ///
    /// The automation object declares the method as `CString Ver()`.
    pub fn Ver(&self) -> (started: ReturnsText)
        ensures
            started@ == spec_invoke(self@, "Ver"@, Seq::empty()),
    {
        let args: Vec<Variant> = Vec::new();
        proof {
            assert(values(args@) =~= Seq::empty());
        }
        ReturnsText(self.Invoke("Ver", args))
    }

    /// Sets the directory that relative file names, of pictures and dictionaries for example,
    /// are resolved against. The status in the reply is 1 on success and 0 on failure.
    ///
    /// The automation object declares the method as `long SetPath(const TCHAR* path)`.
    pub fn SetPath(&self, path: &str) -> (started: ReturnsLong)
        ensures
            started@ == spec_invoke(self@, "SetPath"@, seq![Value::Str(path@)].reverse()),
    {
        let args = vec![Dmsoft::bstrVal(path)];
        proof {
            assert(values(args@) =~= seq![Value::Str(path@)].reverse());
        }
        ReturnsLong(self.Invoke("SetPath", args))
    }

    /// Asks for the directory that the automation object was registered from.
    ///
    /// The automation object declares the method as `CString GetBasePath()`.
    pub fn GetBasePath(&self) -> (started: ReturnsText)
        ensures
            started@ == spec_invoke(self@, "GetBasePath"@, Seq::empty()),
    {
        let args: Vec<Variant> = Vec::new();
        proof {
            assert(values(args@) =~= Seq::empty());
        }
        ReturnsText(self.Invoke("GetBasePath", args))
    }

    /// Invokes `StrStr` on two strings. The documentation of the automation object does not
    /// describe the method.
    ///
    /// The automation object declares the method as `long StrStr(const TCHAR* s, const TCHAR*
    /// str)`.
    pub fn StrStr(&self, s: &str, str: &str) -> (started: ReturnsLong)
        ensures
            started@ == spec_invoke(
                self@,
                "StrStr"@,
                seq![Value::Str(s@), Value::Str(str@)].reverse(),
            ),
    {
        let args = vec![Dmsoft::bstrVal(str), Dmsoft::bstrVal(s)];
        proof {
            assert(values(args@) =~= seq![Value::Str(s@), Value::Str(str@)].reverse());
        }
        ReturnsLong(self.Invoke("StrStr", args))
    }

    /// Invokes `SendCommand` on a string. The documentation of the automation object does not
    /// describe the method.
    ///
    /// The automation object declares the method as `long SendCommand(const TCHAR* cmd)`.
    pub fn SendCommand(&self, cmd: &str) -> (started: ReturnsLong)
        ensures
            started@ == spec_invoke(self@, "SendCommand"@, seq![Value::Str(cmd@)].reverse()),
    {
        let args = vec![Dmsoft::bstrVal(cmd)];
        proof {
            assert(values(args@) =~= seq![Value::Str(cmd@)].reverse());
        }
        ReturnsLong(self.Invoke("SendCommand", args))
    }

    /// Invokes `ShowScrMsg` on a rectangle, a message and a colour. The documentation of the
    /// automation object does not describe the method.
    ///
    /// The automation object declares the method as `long ShowScrMsg(long x1, long y1, long
    /// x2, long y2, const TCHAR* msg, const TCHAR* color)`.
    pub fn ShowScrMsg(
        &self,
        x1: i32,
        y1: i32,
        x2: i32,
        y2: i32,
        msg: &str,
        color: &str,
    ) -> (started: ReturnsLong)
        ensures
            started@ == spec_invoke(
                self@,
                "ShowScrMsg"@,
                seq![
                    Value::Long(x1),
                    Value::Long(y1),
                    Value::Long(x2),
                    Value::Long(y2),
                    Value::Str(msg@),
                    Value::Str(color@),
                ].reverse(),
            ),
    {
        let args = vec![
            Dmsoft::bstrVal(color),
            Dmsoft::bstrVal(msg),
            Dmsoft::longVar(y2),
            Dmsoft::longVar(x2),
            Dmsoft::longVar(y1),
            Dmsoft::longVar(x1),
        ];
        proof {
            assert(values(args@) =~= seq![
                Value::Long(x1),
                Value::Long(y1),
                Value::Long(x2),
                Value::Long(y2),
                Value::Str(msg@),
                Value::Str(color@),
            ].reverse());
        }
        ReturnsLong(self.Invoke("ShowScrMsg", args))
    }
}

} // verus!
