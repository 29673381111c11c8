//! Keyboard and mouse.

use crate::dmsoft::{spec_invoke, Dmsoft, ReturnsLong};
use crate::key::KeyMap;
use crate::variant::{values, Value, Variant};
use vstd::prelude::*;

verus! {

#[allow(non_snake_case)]
impl Dmsoft {
    /// Presses a key and holds it down. The status in the reply is 1 on success and 0 on
    /// failure.
    ///
    /// The automation object declares the method as `long KeyDown(long vk)`.
    pub fn KeyDown(&self, vk: KeyMap<'_>) -> (started: ReturnsLong)
        ensures
            started@ == spec_invoke(self@, "KeyDown"@, seq![Value::Long(vk@.1)].reverse()),
    {
        let args = vec![Dmsoft::longVar(vk.get_id())];
        proof {
            assert(values(args@) =~= seq![Value::Long(vk@.1)].reverse());
        }
        ReturnsLong(self.Invoke("KeyDown", args))
    }

    /// Releases a key. The status in the reply is 1 on success and 0 on failure.
    ///
    /// The automation object declares the method as `long KeyUp(long vk)`.
    pub fn KeyUp(&self, vk: KeyMap<'_>) -> (started: ReturnsLong)
        ensures
            started@ == spec_invoke(self@, "KeyUp"@, seq![Value::Long(vk@.1)].reverse()),
    {
        let args = vec![Dmsoft::longVar(vk.get_id())];
        proof {
            assert(values(args@) =~= seq![Value::Long(vk@.1)].reverse());
        }
        ReturnsLong(self.Invoke("KeyUp", args))
    }

    /// Clicks the left mouse button. The status in the reply is 1 on success and 0 on failure.
    ///
    /// The automation object declares the method as `long LeftClick()`.
    pub fn LeftClick(&self) -> (started: ReturnsLong)
        ensures
            started@ == spec_invoke(self@, "LeftClick"@, Seq::empty()),
    {
        let args: Vec<Variant> = Vec::new();
        proof {
            assert(values(args@) =~= Seq::empty());
        }
        ReturnsLong(self.Invoke("LeftClick", args))
    }

    /// Clicks the right mouse button. The status in the reply is 1 on success and 0 on
    /// failure.
    ///
    /// The automation object declares the method as `long RightClick()`.
    pub fn RightClick(&self) -> (started: ReturnsLong)
        ensures
            started@ == spec_invoke(self@, "RightClick"@, Seq::empty()),
    {
        let args: Vec<Variant> = Vec::new();
        proof {
            assert(values(args@) =~= Seq::empty());
        }
        ReturnsLong(self.Invoke("RightClick", args))
    }

    /// Clicks the middle mouse button. The status in the reply is 1 on success and 0 on
    /// failure.
    ///
    /// The automation object declares the method as `long MiddleClick()`.
    pub fn MiddleClick(&self) -> (started: ReturnsLong)
        ensures
            started@ == spec_invoke(self@, "MiddleClick"@, Seq::empty()),
    {
        let args: Vec<Variant> = Vec::new();
        proof {
            assert(values(args@) =~= Seq::empty());
        }
        ReturnsLong(self.Invoke("MiddleClick", args))
    }

    /// Double-clicks the left mouse button. The status in the reply is 1 on success and 0 on
    /// failure.
    ///
    /// The automation object declares the method as `long LeftDoubleClick()`.
    pub fn LeftDoubleClick(&self) -> (started: ReturnsLong)
        ensures
            started@ == spec_invoke(self@, "LeftDoubleClick"@, Seq::empty()),
    {
        let args: Vec<Variant> = Vec::new();
        proof {
            assert(values(args@) =~= Seq::empty());
        }
        ReturnsLong(self.Invoke("LeftDoubleClick", args))
    }

    /// Presses the left mouse button and holds it down. The status in the reply is 1 on
    /// success and 0 on failure.
    ///
    /// The automation object declares the method as `long LeftDown()`.
    pub fn LeftDown(&self) -> (started: ReturnsLong)
        ensures
            started@ == spec_invoke(self@, "LeftDown"@, Seq::empty()),
    {
        let args: Vec<Variant> = Vec::new();
        proof {
            assert(values(args@) =~= Seq::empty());
        }
        ReturnsLong(self.Invoke("LeftDown", args))
    }

    /// Releases the left mouse button. The status in the reply is 1 on success and 0 on
    /// failure.
    ///
    /// The automation object declares the method as `long LeftUp()`.
    pub fn LeftUp(&self) -> (started: ReturnsLong)
        ensures
            started@ == spec_invoke(self@, "LeftUp"@, Seq::empty()),
    {
        let args: Vec<Variant> = Vec::new();
        proof {
            assert(values(args@) =~= Seq::empty());
        }
        ReturnsLong(self.Invoke("LeftUp", args))
    }

    /// Presses the right mouse button and holds it down. The status in the reply is 1 on
    /// success and 0 on failure.
    ///
    /// The automation object declares the method as `long RightDown()`.
    pub fn RightDown(&self) -> (started: ReturnsLong)
        ensures
            started@ == spec_invoke(self@, "RightDown"@, Seq::empty()),
    {
        let args: Vec<Variant> = Vec::new();
        proof {
            assert(values(args@) =~= Seq::empty());
        }
        ReturnsLong(self.Invoke("RightDown", args))
    }

    /// Releases the right mouse button. The status in the reply is 1 on success and 0 on
    /// failure.
    ///
    /// The automation object declares the method as `long RightUp()`.
    pub fn RightUp(&self) -> (started: ReturnsLong)
        ensures
            started@ == spec_invoke(self@, "RightUp"@, Seq::empty()),
    {
        let args: Vec<Variant> = Vec::new();
        proof {
            assert(values(args@) =~= Seq::empty());
        }
        ReturnsLong(self.Invoke("RightUp", args))
    }

    /// Moves the pointer to the position `(x, y)`. The status in the reply is 1 on success and
    /// 0 on failure.
    ///
    /// The automation object declares the method as `long MoveTo(long x, long y)`.
    pub fn MoveTo(&self, x: i32, y: i32) -> (started: ReturnsLong)
        ensures
            started@ == spec_invoke(
                self@,
                "MoveTo"@,
                seq![Value::Long(x), Value::Long(y)].reverse(),
            ),
    {
        let args = vec![Dmsoft::longVar(y), Dmsoft::longVar(x)];
        proof {
            assert(values(args@) =~= seq![Value::Long(x), Value::Long(y)].reverse());
        }
        ReturnsLong(self.Invoke("MoveTo", args))
    }

    /// Moves the pointer by `(rx, ry)` from where it is. The status in the reply is 1 on
    /// success and 0 on failure.
    ///
    /// The automation object declares the method as `long MoveR(long rx, long ry)`.
    pub fn MoveR(&self, rx: i32, ry: i32) -> (started: ReturnsLong)
        ensures
            started@ == spec_invoke(
                self@,
                "MoveR"@,
                seq![Value::Long(rx), Value::Long(ry)].reverse(),
            ),
    {
        let args = vec![Dmsoft::longVar(ry), Dmsoft::longVar(rx)];
        proof {
            assert(values(args@) =~= seq![Value::Long(rx), Value::Long(ry)].reverse());
        }
        ReturnsLong(self.Invoke("MoveR", args))
    }

    /// Presses and releases a key. The status in the reply is 1 on success and 0 on failure.
    ///
    /// The automation object declares the method as `long KeyPress(long vk)`.
    pub fn KeyPress(&self, vk: &KeyMap<'_>) -> (started: ReturnsLong)
        ensures
            started@ == spec_invoke(self@, "KeyPress"@, seq![Value::Long(vk@.1)].reverse()),
    {
        let args = vec![Dmsoft::longVar(vk.get_id())];
        proof {
            assert(values(args@) =~= seq![Value::Long(vk@.1)].reverse());
        }
        ReturnsLong(self.Invoke("KeyPress", args))
    }
}

} // verus!
