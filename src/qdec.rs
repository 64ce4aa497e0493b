use vstd::prelude::*;
use crate::callback::Callback;
use crate::grant::Grant;
use crate::hil::{QdecClient, QdecDriver};
use crate::kernel::Kernel;
use crate::process::AppId;
use crate::returncode::ReturnCode;
use crate::syscall::{AppSlice, Driver};

verus! {

/// Driver number under which processes reach the quadrature decoder.
pub const DRIVER_NUM: usize = 0x90005;

/// What the decoder capsule keeps for each process.
#[derive(Clone, Copy, Debug, PartialEq, Eq, Structural)]
pub struct App {
    pub callback: Option<Callback>,
    pub subscribed: bool,
}

impl App {
    /// The state of a process that has not subscribed.
    pub open spec fn empty_spec() -> App {
        App { callback: None, subscribed: false }
    }

    pub fn empty() -> (r: App)
        ensures
            r == App::empty_spec(),
    {
        App { callback: None, subscribed: false }
    }
}

/// Gives processes access to the quadrature decoder.
pub struct QdecInterface<D: QdecDriver> {
    pub driver: D,
    pub apps: Grant<App>,
}

impl<D: QdecDriver> QdecInterface<D> {
    pub fn new(driver: D, grant: Grant<App>) -> (r: QdecInterface<D>)
        ensures
            r.driver == driver,
            r.apps == grant,
    {
        QdecInterface { driver, apps: grant }
    }

    /// Stores `callback` as the one of process `app_id`, keeping whether it
    /// is subscribed. Fails with the grant's error when the process is gone
    /// or out of memory.
    fn configure_callback(&mut self, kernel: &mut Kernel, callback: Option<Callback>, app_id: AppId) -> (r: ReturnCode)
        requires
            old(kernel).wf(),
        ensures
            final(kernel).wf(),
            final(kernel).slots().len() == old(kernel).slots().len(),
            final(self).driver == old(self).driver,
            forall|b: AppId| b.index != app_id.index ==> #[trigger] final(self).apps.stored(*final(kernel), b)
                == old(self).apps.stored(*old(kernel), b),
            final(kernel).same_except(*old(kernel), app_id.index as int),
            match old(self).apps.enter_result(*old(kernel), app_id, App::empty_spec()) {
                Ok(cur) => r == ReturnCode::SUCCESS && final(self).apps.stored(*final(kernel), app_id)
                    == Some(App { callback, ..cur }),
                Err(e) => r == e.spec_return_code() && *final(kernel) == *old(kernel) && *final(self) == *old(self),
            },
    {
        match self.apps.enter(kernel, app_id, App::empty()) {
            Err(e) => e.into_return_code(),
            Ok(cur) => {
                let _ = self.apps.update(kernel, app_id, App { callback, ..cur });
                proof {
                    assert(self.apps.stored(*kernel, app_id) == Some(App { callback, ..cur }));
                }
                ReturnCode::SUCCESS
            },
        }
    }
}

/// `x` with its subscription used up.
pub open spec fn cleared(x: Option<App>) -> Option<App> {
    match x {
        Some(app) => Some(App { subscribed: false, ..app }),
        None => None,
    }
}

/// What grant `g` holds for the process in slot `j` of `k`.
pub open spec fn held_at(g: Grant<App>, k: Kernel, j: int) -> Option<App> {
    if k.occupied(j) {
        g.stored(k, k.proc(j).app_id)
    } else {
        None
    }
}

/// The kernel goes from `k0` to `k1` as the process holding `held` is
/// notified of the reading `v`: a subscribed process with a callback has
/// that callback queued once with `v`; nothing happens otherwise.
pub open spec fn notify_step(held: Option<App>, k0: Kernel, k1: Kernel, v: u32) -> bool {
    match held {
        Some(app) => if app.subscribed && app.callback.is_some() {
            exists|r: bool|
                #[trigger] k0.enqueued(k1, app.callback.unwrap().app_id, app.callback.unwrap().task(v as usize, 0, 0), r)
        } else {
            k1 == k0
        },
        None => k1 == k0,
    }
}

/// `ks` are the kernels passed through, slot after slot, while the
/// processes using grant `g` are notified, from `k` to `kf`, with the
/// readings `vs`.
pub open spec fn notify_trace(g: Grant<App>, k: Kernel, kf: Kernel, ks: Seq<Kernel>, vs: Seq<u32>) -> bool {
    let n = g.entries().len();
    &&& ks.len() == n + 1
    &&& vs.len() == n
    &&& ks[0] == k
    &&& ks[n as int] == kf
    &&& forall|j: int| 0 <= j < n ==> #[trigger] notify_step(held_at(g, k, j), ks[j], ks[j + 1], vs[j])
}

/// `(c1, k1)` is `(c0, k0)` after a sample was announced: each subscribed
/// process loses its subscription and has its callback queued once with a
/// reading of the decoder; the state of other processes stays as it was.
pub open spec fn notified<D: QdecDriver>(c0: QdecInterface<D>, k0: Kernel, c1: QdecInterface<D>, k1: Kernel) -> bool {
    &&& k1.wf()
    &&& k0.same_processes(k1)
    &&& c1.apps.entries().len() == c0.apps.entries().len()
    &&& forall|b: AppId| #[trigger] c1.apps.stored(k1, b) == cleared(c0.apps.stored(k0, b))
    &&& exists|ks: Seq<Kernel>, vs: Seq<u32>| #[trigger] notify_trace(c0.apps, k0, k1, ks, vs)
}

impl<D: QdecDriver> QdecInterface<D> {
    /// Tells every subscribed process the accumulated motion, once: the
    /// subscription is used up by the notification.
    pub fn sample_ready(&mut self, kernel: &mut Kernel)
        requires
            old(kernel).wf(),
        ensures
            notified(*old(self), *old(kernel), *final(self), *final(kernel)),
    {
        let ghost g0 = self.apps;
        let ghost k0 = *kernel;
        let ghost mut ks: Seq<Kernel> = seq![*kernel];
        let ghost mut vs: Seq<u32> = Seq::empty();
        let n = self.apps.num_slots();
        let mut i: usize = 0;
        while i < n
            invariant
                kernel.wf(),
                k0.wf(),
                n == g0.entries().len(),
                i <= n,
                self.apps.entries().len() == n,
                k0.same_processes(*kernel),
                ks.len() == i + 1,
                vs.len() == i,
                ks[0] == k0,
                ks[i as int] == *kernel,
                forall|j: int| 0 <= j < i ==> #[trigger] notify_step(held_at(g0, k0, j), ks[j], ks[j + 1], vs[j]),
                forall|b: AppId|
                    #[trigger] self.apps.stored(*kernel, b) == if b.index < i {
                        cleared(g0.stored(k0, b))
                    } else {
                        g0.stored(k0, b)
                    },
            decreases n - i,
        {
            let ghost kb = *kernel;
            let ghost gb = self.apps;
            let mut v: u32 = 0;
            let app_id = match kernel.process(i) {
                Some(p) => Some(p.app_id),
                None => None,
            };
            proof {
                if k0.occupied(i as int) {
                    assert(kernel.occupied(i as int));
                }
                if kernel.occupied(i as int) {
                    assert(k0.occupied(i as int));
                }
            }
            match app_id {
                Some(a) => {
                    proof {
                        assert(a == k0.proc(i as int).app_id);
                        assert(a.index == i);
                    }
                    match self.apps.get(kernel, a) {
                        Some(app) => {
                            if app.subscribed {
                                let _ = self.apps.update(kernel, a, App { subscribed: false, ..app });
                                match app.callback {
                                    Some(cb) => {
                                        let mut cb = cb;
                                        let acc = self.driver.get_acc();
                                        v = acc;
                                        let ghost kc = *kernel;
                                        let r = cb.schedule(kernel, acc as usize, 0, 0);
                                        proof {
                                            crate::kernel::lemma_enqueued_same_processes(
                                                kc,
                                                *kernel,
                                                cb.app_id,
                                                cb.task(acc as usize, 0, 0),
                                                r,
                                            );
                                            assert(kc.enqueued(*kernel, cb.app_id, cb.task(v as usize, 0, 0), r));
                                        }
                                    },
                                    None => {},
                                }
                            }
                        },
                        None => {},
                    }
                },
                None => {},
            }
            proof {
                assert(kb.same_processes(*kernel));
                assert forall|b: AppId|
                    #[trigger] self.apps.stored(*kernel, b) == if b.index < i + 1 {
                        cleared(g0.stored(k0, b))
                    } else {
                        g0.stored(k0, b)
                    } by {
                    crate::grant::lemma_stored_same_processes(self.apps, kb, *kernel, b);
                    crate::grant::lemma_stored_same_processes(gb, k0, kb, b);
                    crate::grant::lemma_stored_same_processes(g0, k0, kb, b);
                    if b.index == i {
                        if !k0.spec_is_live(b) {
                            crate::grant::lemma_stored_same_processes(self.apps, k0, *kernel, b);
                        }
                    }
                }
                ks = ks.push(*kernel);
                vs = vs.push(v);
                assert forall|j: int| 0 <= j < i + 1 implies #[trigger] notify_step(
                    held_at(g0, k0, j),
                    ks[j],
                    ks[j + 1],
                    vs[j],
                ) by {
                    if j == i {
                        if k0.occupied(j) {
                            crate::grant::lemma_stored_same_processes(g0, k0, kb, k0.proc(j).app_id);
                        }
                    }
                }
            }
            i = i + 1;
        }
        proof {
            assert forall|b: AppId| #[trigger] self.apps.stored(*kernel, b) == cleared(g0.stored(k0, b)) by {
                if b.index >= n {
                    assert(g0.stored(k0, b).is_none());
                }
            }
            assert(notify_trace(g0, k0, *kernel, ks, vs));
        }
    }
}

impl<D: QdecDriver> QdecClient for QdecInterface<D> {
    fn sample_ready(&mut self, kernel: &mut Kernel)
        ensures
            notified(*old(self), *old(kernel), *final(self), *final(kernel)),
    {
        QdecInterface::sample_ready(self, kernel)
    }

    /// Overflow is not reported to processes.
    fn overflow(&mut self, kernel: &mut Kernel)
        ensures
            *final(kernel) == *old(kernel),
    {
    }
}

impl<D: QdecDriver> QdecInterface<D> {
    /// Subscribe number 0 sets the process's callback; any other is not
    /// supported.
    pub fn subscribe(&mut self, kernel: &mut Kernel, subscribe_num: usize, callback: Option<Callback>, app_id: AppId) -> (r: ReturnCode)
        requires
            old(kernel).wf(),
        ensures
            final(kernel).wf(),
            final(kernel).slots().len() == old(kernel).slots().len(),
            subscribe_num != 0 ==> r == ReturnCode::ENOSUPPORT && *final(kernel) == *old(kernel) && *final(self) == *old(self),
            final(self).driver == old(self).driver,
            forall|b: AppId| b.index != app_id.index ==> #[trigger] final(self).apps.stored(*final(kernel), b)
                == old(self).apps.stored(*old(kernel), b),
            final(kernel).same_except(*old(kernel), app_id.index as int),
            subscribe_num == 0 ==> match old(self).apps.enter_result(*old(kernel), app_id, App::empty_spec()) {
                Ok(cur) => r == ReturnCode::SUCCESS && final(self).apps.stored(*final(kernel), app_id)
                    == Some(App { callback, ..cur }),
                Err(e) => r == e.spec_return_code() && *final(kernel) == *old(kernel) && *final(self) == *old(self),
            },
    {
        if subscribe_num == 0 {
            self.configure_callback(kernel, callback, app_id)
        } else {
            ReturnCode::ENOSUPPORT
        }
    }

    /// 0: is the driver present; 1: turn the decoder on; 2: is it on;
    /// 3: turn its interrupt on; 4: read and reset the accumulated motion.
    /// Any other number is not supported.
    pub fn command(&mut self, kernel: &mut Kernel, command_num: usize, arg0: usize, arg1: usize, app_id: AppId) -> (r: ReturnCode)
        ensures
            *final(kernel) == *old(kernel),
            final(self).apps == old(self).apps,
            command_num == 0 ==> r == ReturnCode::SUCCESS && final(self).driver == old(self).driver,
            command_num == 1 ==> final(self).driver.spec_acc() == old(self).driver.spec_acc() && r == if final(self).driver.spec_enabled() {
                ReturnCode::SUCCESS
            } else {
                ReturnCode::FAIL
            },
            command_num == 2 ==> final(self).driver == old(self).driver && r == if old(self).driver.spec_enabled() {
                ReturnCode::SUCCESS
            } else {
                ReturnCode::FAIL
            },
            command_num == 3 ==> r == ReturnCode::SUCCESS && final(self).driver.spec_acc() == old(self).driver.spec_acc()
                && final(self).driver.spec_enabled() == old(self).driver.spec_enabled(),
            command_num == 4 ==> r == (ReturnCode::SuccessWithValue { value: old(self).driver.spec_acc() as usize })
                && final(self).driver.spec_acc() == 0 && final(self).driver.spec_enabled()
                == old(self).driver.spec_enabled(),
            command_num > 4 ==> r == ReturnCode::ENOSUPPORT && final(self).driver == old(self).driver,
    {
        if command_num == 0 {
            ReturnCode::SUCCESS
        } else if command_num == 1 {
            self.driver.enable_qdec()
        } else if command_num == 2 {
            self.driver.enabled()
        } else if command_num == 3 {
            self.driver.enable_interrupts()
        } else if command_num == 4 {
            let acc = self.driver.get_acc();
            ReturnCode::SuccessWithValue { value: acc as usize }
        } else {
            ReturnCode::ENOSUPPORT
        }
    }
}

impl<D: QdecDriver> Driver for QdecInterface<D> {
    fn subscribe(&mut self, kernel: &mut Kernel, subscribe_num: usize, callback: Option<Callback>, app_id: AppId) -> (r: ReturnCode) {
        QdecInterface::subscribe(self, kernel, subscribe_num, callback, app_id)
    }

    fn command(&mut self, kernel: &mut Kernel, command_num: usize, arg0: usize, arg1: usize, app_id: AppId) -> (r: ReturnCode) {
        QdecInterface::command(self, kernel, command_num, arg0, arg1, app_id)
    }

    /// The decoder takes no buffers.
    fn allow(&mut self, kernel: &mut Kernel, app_id: AppId, allow_num: usize, slice: Option<AppSlice>) -> (r: ReturnCode)
        ensures
            r == ReturnCode::ENOSUPPORT,
            *final(kernel) == *old(kernel),
            *final(self) == *old(self),
    {
        ReturnCode::ENOSUPPORT
    }
}

} // verus!
