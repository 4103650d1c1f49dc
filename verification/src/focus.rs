use vstd::prelude::*;
use vstd::string::StrSliceExecFns;
use vstd::string::StringExecFns;

verus! {

/// One primitive call into the display backend.
#[derive(Debug, Clone, Copy, PartialEq, Eq, Structural)]
pub enum BackendOp {
    SetFocus { window: u64, revert: i32 },
    KeyDown { keycode: u8 },
    KeyUp { keycode: u8 },
    ButtonDown { button: u8 },
    ButtonUp { button: u8 },
    Flush,
}

/// The display session state the injection protocol works against: the
/// configured display and target window, and the memoised key-name
/// resolutions.  The connection handle itself lives with the caller that
/// performs the emitted `BackendOp`s.
#[derive(Debug)]
pub struct XContext {
    pub display_name: Option<String>,
    pub window: Option<u64>,
    key_name_to_code: Vec<(String, u8)>,
}

/// Spec-level image of an `XContext`.
pub struct XContextV {
    pub display_name: Option<Seq<char>>,
    pub window: Option<u64>,
    pub key_name_to_code: Seq<(Seq<char>, u8)>,
}

impl View for XContext {
    type V = XContextV;

    closed spec fn view(&self) -> XContextV {
        XContextV {
            display_name: match self.display_name {
                Some(ref name) => Some(name@),
                None => None,
            },
            window: self.window,
            key_name_to_code: self.key_name_to_code@.map_values(|p: (String, u8)| (p.0@, p.1)),
        }
    }
}

/// The code memoised for `name`: the first entry of `m` that carries `name`.
pub open spec fn memo_lookup(m: Seq<(Seq<char>, u8)>, name: Seq<char>) -> Option<u8>
    decreases m.len(),
{
    if m.len() == 0 {
        None
    } else if m[0].0 == name {
        Some(m[0].1)
    } else {
        memo_lookup(m.skip(1), name)
    }
}

/// One memoised resolution step: the code it returns and the table it leaves
/// behind, when the backend would newly resolve `name` to `resolved`.
pub open spec fn spec_lookup_step(m: Seq<(Seq<char>, u8)>, name: Seq<char>, resolved: u8) -> (
    u8,
    Seq<(Seq<char>, u8)>,
) {
    match memo_lookup(m, name) {
        Some(code) => (code, m),
        None => (resolved, m.push((name, resolved))),
    }
}

/// Appending an entry for an unknown name makes that entry the one found.
proof fn lemma_memo_lookup_push(m: Seq<(Seq<char>, u8)>, name: Seq<char>, code: u8)
    requires
        memo_lookup(m, name) is None,
    ensures
        memo_lookup(m.push((name, code)), name) == Some(code),
    decreases m.len(),
{
    if m.len() == 0 {
        assert(m.push((name, code))[0].0 == name);
    } else {
        assert(m.push((name, code)).skip(1) =~= m.skip(1).push((name, code)));
        lemma_memo_lookup_push(m.skip(1), name, code);
    }
}

/// Key-name resolution is memoised: once a name has been resolved, every
/// later resolution of that name returns the same code and leaves the table
/// unchanged, whatever the backend would newly report.
pub proof fn lemma_keycode_memoized(
    m: Seq<(Seq<char>, u8)>,
    name: Seq<char>,
    first_resolved: u8,
    second_resolved: u8,
)
    ensures
        ({
            let (code1, m1) = spec_lookup_step(m, name, first_resolved);
            let (code2, m2) = spec_lookup_step(m1, name, second_resolved);
            code2 == code1 && m2 == m1
        }),
{
    if memo_lookup(m, name) is None {
        lemma_memo_lookup_push(m, name, first_resolved);
    }
}

/// Character-by-character string comparison.
fn str_eq(a: &str, b: &str) -> (r: bool)
    ensures
        r == (a@ == b@),
{
    let an = a.unicode_len();
    let bn = b.unicode_len();
    if an != bn {
        return false;
    }
    let mut i: usize = 0;
    while i < an
        invariant
            an == a@.len(),
            an == b@.len(),
            i <= an,
            forall|j: int| 0 <= j < i ==> a@[j] == b@[j],
        decreases an - i,
    {
        if a.get_char(i) != b.get_char(i) {
            return false;
        }
        i += 1;
    }
    proof {
        assert(a@ =~= b@);
    }
    true
}

/// The window the protocol focuses before injecting: the configured target
/// window if there is one, else the window already holding focus.
pub open spec fn spec_flip_target(configured: Option<u64>, current: u64) -> u64 {
    match configured {
        Some(w) => w,
        None => current,
    }
}

/// The backend operations of one focus-preserving button click: focus the
/// target, press and release the button, restore the saved focus, flush.
pub open spec fn spec_button_ops(target: u64, saved_window: u64, revert: i32, button: u8) -> Seq<
    BackendOp,
> {
    seq![
        BackendOp::SetFocus { window: target, revert },
        BackendOp::ButtonDown { button },
        BackendOp::ButtonUp { button },
        BackendOp::SetFocus { window: saved_window, revert },
        BackendOp::Flush,
    ]
}

/// The backend operations of one focus-preserving key tap.
pub open spec fn spec_key_ops(target: u64, saved_window: u64, revert: i32, keycode: u8) -> Seq<
    BackendOp,
> {
    seq![
        BackendOp::SetFocus { window: target, revert },
        BackendOp::KeyDown { keycode },
        BackendOp::KeyUp { keycode },
        BackendOp::SetFocus { window: saved_window, revert },
        BackendOp::Flush,
    ]
}

/// Every injection transaction ends by restoring the focus it found and
/// flushing, whichever window was focused and whatever it injects.
pub proof fn lemma_injection_preserves_focus(
    target: u64,
    saved_window: u64,
    revert: i32,
    button: u8,
    keycode: u8,
)
    ensures
        ({
            let ops = spec_button_ops(target, saved_window, revert, button);
            ops[ops.len() - 2] == (BackendOp::SetFocus { window: saved_window, revert })
                && ops.last() == BackendOp::Flush
        }),
        ({
            let ops = spec_key_ops(target, saved_window, revert, keycode);
            ops[ops.len() - 2] == (BackendOp::SetFocus { window: saved_window, revert })
                && ops.last() == BackendOp::Flush
        }),
{
}

impl XContext {
    /// A fresh context for the named display, with no target window and an
    /// empty resolution table.
    pub fn new(display_name: Option<String>) -> (r: XContext)
        ensures
            r@.display_name == (match display_name {
                Some(name) => Some(name@),
                None => None::<Seq<char>>,
            }),
            r@.window is None,
            r@.key_name_to_code == Seq::<(Seq<char>, u8)>::empty(),
    {
        let r = XContext { display_name, window: None, key_name_to_code: Vec::new() };
        proof {
            assert(r@.key_name_to_code =~= Seq::<(Seq<char>, u8)>::empty());
        }
        r
    }

    /// Returns the code for `key_name`, memoising it on first resolution.
    /// `resolved` is what the backend reports for the name now; it is used
    /// only when the name has never been resolved before.
    pub fn keycode_lookup(&mut self, key_name: &str, resolved: u8) -> (code: u8)
        ensures
            final(self)@.display_name == old(self)@.display_name,
            final(self)@.window == old(self)@.window,
            (code, final(self)@.key_name_to_code) == spec_lookup_step(
                old(self)@.key_name_to_code,
                key_name@,
                resolved,
            ),
    {
        let ghost m = self@.key_name_to_code;
        proof {
            assert(m.skip(0) =~= m);
        }
        let n = self.key_name_to_code.len();
        let mut i: usize = 0;
        while i < n
            invariant
                n == self.key_name_to_code@.len(),
                i <= n,
                m == self@.key_name_to_code,
                m.len() == n,
                forall|j: int| 0 <= j < n ==> m[j] == (
                    self.key_name_to_code@[j].0@,
                    self.key_name_to_code@[j].1,
                ),
                memo_lookup(m, key_name@) == memo_lookup(m.skip(i as int), key_name@),
            decreases n - i,
        {
            if str_eq(self.key_name_to_code[i].0.as_str(), key_name) {
                proof {
                    assert(m.skip(i as int)[0] == m[i as int]);
                }
                return self.key_name_to_code[i].1;
            }
            proof {
                assert(m.skip(i as int)[0] == m[i as int]);
                assert(m.skip(i as int).skip(1) =~= m.skip(i + 1));
            }
            i += 1;
        }
        proof {
            assert(m.skip(n as int) =~= Seq::<(Seq<char>, u8)>::empty());
        }
        self.key_name_to_code.push((String::from_str(key_name), resolved));
        proof {
            assert(self@.key_name_to_code =~= m.push((key_name@, resolved)));
        }
        resolved
    }

    /// Saves the focus the caller found and emits the operation that focuses
    /// the injection target.
    pub fn flip_to_saved_window(&self, current_window: u64, current_revert: i32) -> (r: (
        (u64, i32),
        BackendOp,
    ))
        ensures
            r.0 == (current_window, current_revert),
            r.1 == (BackendOp::SetFocus {
                window: spec_flip_target(self@.window, current_window),
                revert: current_revert,
            }),
    {
        let target = match self.window {
            Some(w) => w,
            None => current_window,
        };
        ((current_window, current_revert), BackendOp::SetFocus {
            window: target,
            revert: current_revert,
        })
    }

    /// Emits the operation that puts focus back where it was saved.
    pub fn restore_original_window(&self, saved: (u64, i32)) -> (r: BackendOp)
        ensures
            r == (BackendOp::SetFocus { window: saved.0, revert: saved.1 }),
    {
        BackendOp::SetFocus { window: saved.0, revert: saved.1 }
    }

    /// One focus-preserving click of `button`, given the focus the caller
    /// queried from the backend.
    pub fn send_button_event_to_window(
        &self,
        current_window: u64,
        current_revert: i32,
        button: u8,
    ) -> (r: Vec<BackendOp>)
        ensures
            r@ == spec_button_ops(
                spec_flip_target(self@.window, current_window),
                current_window,
                current_revert,
                button,
            ),
    {
        let (saved, focus_op) = self.flip_to_saved_window(current_window, current_revert);
        let mut ops: Vec<BackendOp> = Vec::new();
        ops.push(focus_op);
        ops.push(BackendOp::ButtonDown { button });
        ops.push(BackendOp::ButtonUp { button });
        ops.push(self.restore_original_window(saved));
        ops.push(BackendOp::Flush);
        proof {
            assert(ops@ =~= spec_button_ops(
                spec_flip_target(self@.window, current_window),
                current_window,
                current_revert,
                button,
            ));
        }
        ops
    }

    /// One focus-preserving tap of the key with code `keycode`.
    pub fn send_key_event_to_window(
        &self,
        current_window: u64,
        current_revert: i32,
        keycode: u8,
    ) -> (r: Vec<BackendOp>)
        ensures
            r@ == spec_key_ops(
                spec_flip_target(self@.window, current_window),
                current_window,
                current_revert,
                keycode,
            ),
    {
        let (saved, focus_op) = self.flip_to_saved_window(current_window, current_revert);
        let mut ops: Vec<BackendOp> = Vec::new();
        ops.push(focus_op);
        ops.push(BackendOp::KeyDown { keycode });
        ops.push(BackendOp::KeyUp { keycode });
        ops.push(self.restore_original_window(saved));
        ops.push(BackendOp::Flush);
        proof {
            assert(ops@ =~= spec_key_ops(
                spec_flip_target(self@.window, current_window),
                current_window,
                current_revert,
                keycode,
            ));
        }
        ops
    }

    /// One focus-preserving tap of the key named `key_name`, resolving the
    /// name through the memo table.  `resolved` is the backend's resolution
    /// of the name, consulted only on first use.
    pub fn send_key_to_window(
        &mut self,
        current_window: u64,
        current_revert: i32,
        key_name: &str,
        resolved: u8,
    ) -> (r: Vec<BackendOp>)
        ensures
            final(self)@.display_name == old(self)@.display_name,
            final(self)@.window == old(self)@.window,
            ({
                let (code, memo) = spec_lookup_step(
                    old(self)@.key_name_to_code,
                    key_name@,
                    resolved,
                );
                final(self)@.key_name_to_code == memo && r@ == spec_key_ops(
                    spec_flip_target(old(self)@.window, current_window),
                    current_window,
                    current_revert,
                    code,
                )
            }),
    {
        let keycode = self.keycode_lookup(key_name, resolved);
        self.send_key_event_to_window(current_window, current_revert, keycode)
    }
}

} // verus!
