use linkerd_middleware::lock::error::ServiceError;
use linkerd_middleware::lock::service::{Lock, Ready, State};
use linkerd_middleware::lock::shared::Shared;
use linkerd_middleware::poll::Poll;
use std::cell::RefCell;
use std::rc::Rc;

#[derive(Debug)]
struct Underflow;

#[derive(Debug)]
struct Decr {
    value: usize,
    ready: Rc<RefCell<bool>>,
}

impl Decr {
    fn new(value: usize, ready: Rc<RefCell<bool>>) -> Self {
        Decr { value, ready }
    }

    fn from(value: usize) -> Self {
        Self::new(value, Rc::new(RefCell::new(true)))
    }

    fn poll_ready(&mut self) -> Result<Poll<()>, Underflow> {
        if self.value == 0 {
            return Err(Underflow);
        }
        if !*self.ready.borrow() {
            return Ok(Poll::Pending);
        }
        Ok(Poll::Ready(()))
    }

    fn call(&mut self, decr: usize) -> Result<usize, Underflow> {
        if self.value < decr {
            self.value = 0;
            return Err(Underflow);
        }
        self.value -= decr;
        Ok(self.value)
    }
}

#[derive(Debug)]
enum Error {
    Poisoned,
    Service(ServiceError<Underflow>),
}

struct Svc {
    lock: Lock<Decr, Underflow>,
    shared: Rc<RefCell<Shared<Decr, Underflow>>>,
    poisoned: Rc<RefCell<bool>>,
    notified: Rc<RefCell<Vec<u64>>>,
}

impl Svc {
    fn new(decr: Decr) -> Self {
        let (lock, shared) = Lock::new(decr);
        Svc {
            lock,
            shared: Rc::new(RefCell::new(shared)),
            poisoned: Rc::new(RefCell::new(false)),
            notified: Rc::new(RefCell::new(Vec::new())),
        }
    }

    fn poll_ready(&mut self) -> Result<Poll<()>, Error> {
        let poisoned = *self.poisoned.borrow();
        let mut shared = self.shared.borrow_mut();
        match self.lock.poll_ready(&mut shared, poisoned) {
            Ready::PollService => {
                let polled = match &mut self.lock.state {
                    State::Acquired(service) => service.poll_ready(),
                    _ => panic!("must be acquired"),
                };
                let (result, notified) = self.lock.service_polled(&mut shared, poisoned, polled);
                self.notified.borrow_mut().extend(notified);
                result.map_err(Error::Service)
            }
            Ready::Pending => Ok(Poll::Pending),
            Ready::Poisoned(_) => Err(Error::Poisoned),
            Ready::Failed(error) => Err(Error::Service(error)),
        }
    }

    fn call(&mut self, decr: usize) -> Result<usize, Underflow> {
        let mut service = self.lock.call();
        let response = service.call(decr);
        let poisoned = *self.poisoned.borrow();
        let notified = Lock::release(&mut self.shared.borrow_mut(), poisoned, service);
        self.notified.borrow_mut().extend(notified);
        response
    }

    fn drop_lock(self) {
        let poisoned = *self.poisoned.borrow();
        let notified = self.lock.drop(&mut self.shared.borrow_mut(), poisoned);
        self.notified.borrow_mut().extend(notified);
    }

    fn drop_quietly(self) {
        let poisoned = *self.poisoned.borrow();
        let notified = self.lock.drop_if_available(&mut self.shared.borrow_mut(), poisoned);
        self.notified.borrow_mut().extend(notified);
    }

    fn waiting(&self) -> Option<u64> {
        match &self.lock.state {
            State::Waiting(wait) => Some(wait.id),
            _ => None,
        }
    }
}

impl Clone for Svc {
    fn clone(&self) -> Self {
        Svc {
            lock: self.lock.clone(),
            shared: self.shared.clone(),
            poisoned: self.poisoned.clone(),
            notified: self.notified.clone(),
        }
    }
}

fn is_ready(polled: Result<Poll<()>, Error>) -> bool {
    matches!(polled.expect("must not fail"), Poll::Ready(()))
}

#[test]
fn exclusive_access() {
    let ready = Rc::new(RefCell::new(false));
    let mut svc0 = Svc::new(Decr::new(2, ready.clone()));

    // svc0 grabs the lock, but the inner service isn't ready.
    assert!(!is_ready(svc0.poll_ready()));

    // Cloning a locked service does not preserve the lock.
    let mut svc1 = svc0.clone();

    // svc1 can't grab the lock.
    assert!(!is_ready(svc1.poll_ready()));

    // svc0 holds the lock and becomes ready with the inner service.
    *ready.borrow_mut() = true;
    assert!(is_ready(svc0.poll_ready()));

    // svc1 still can't grab the lock.
    assert!(!is_ready(svc1.poll_ready()));

    // svc0 remains ready.
    let rsp0 = svc0.call(1);

    // svc1 grabs the lock and is immediately ready.
    assert!(is_ready(svc1.poll_ready()));
    // svc0 cannot grab the lock.
    assert!(!is_ready(svc0.poll_ready()));

    let rsp1 = svc1.call(1);

    rsp0.expect("must not fail");
    rsp1.expect("must not fail");
}

#[test]
fn propagates_errors() {
    let mut svc0 = Svc::new(Decr::from(1));

    // svc0 grabs the lock and we decr the service so it will fail.
    assert!(is_ready(svc0.poll_ready()));
    // svc0 remains ready.
    svc0.call(1).expect("must not fail");

    // svc1 grabs the lock and fails immediately.
    let mut svc1 = svc0.clone();
    match svc1.poll_ready().expect_err("mut fail") {
        Error::Service(error) => assert!(matches!(error.inner(), Underflow)),
        Error::Poisoned => panic!("must fail with service error"),
    }

    // svc0 suffers the same fate.
    match svc0.poll_ready().expect_err("mut fail") {
        Error::Service(error) => assert!(matches!(error.inner(), Underflow)),
        Error::Poisoned => panic!("must fail with service error"),
    }
}

#[test]
fn dropping_releases_access() {
    let ready = Rc::new(RefCell::new(false));
    let mut svc0 = Svc::new(Decr::new(2, ready.clone()));

    // svc0 grabs the lock, but the inner service isn't ready.
    assert!(!is_ready(svc0.poll_ready()));

    // Cloning a locked service does not preserve the lock.
    let mut svc1 = svc0.clone();

    // svc1 can't grab the lock.
    assert!(!is_ready(svc1.poll_ready()));

    // svc0 holds the lock and becomes ready with the inner service.
    *ready.borrow_mut() = true;
    assert!(is_ready(svc0.poll_ready()));

    // svc1 still can't grab the lock.
    assert!(!is_ready(svc1.poll_ready()));

    assert!(!is_ready(svc1.poll_ready()));

    svc0.drop_lock();

    // svc1 grabs the lock and is immediately ready.
    assert!(is_ready(svc1.poll_ready()));
    assert_eq!(svc1.call(1).expect("must not fail"), 1);
}

#[test]
fn release_notifies_the_last_registered_wait() {
    let mut svc0 = Svc::new(Decr::from(5));
    let mut svc1 = svc0.clone();
    let mut svc2 = svc0.clone();
    assert!(is_ready(svc0.poll_ready()));
    assert!(!is_ready(svc1.poll_ready()));
    assert!(!is_ready(svc2.poll_ready()));
    let wait2 = svc2.waiting().expect("must wait");
    svc0.call(1).expect("must not fail");
    assert_eq!(*svc0.notified.borrow(), vec![wait2]);
}

#[test]
fn dropped_wait_passes_the_notification_on() {
    let mut svc0 = Svc::new(Decr::from(5));
    let mut svc1 = svc0.clone();
    let mut svc2 = svc0.clone();
    assert!(is_ready(svc0.poll_ready()));
    assert!(!is_ready(svc1.poll_ready()));
    assert!(!is_ready(svc2.poll_ready()));
    let wait1 = svc1.waiting().expect("must wait");
    let wait2 = svc2.waiting().expect("must wait");
    svc0.call(1).expect("must not fail");
    svc2.drop_lock();
    assert_eq!(*svc0.notified.borrow(), vec![wait2, wait1]);
    assert!(is_ready(svc1.poll_ready()));
}

#[test]
fn dropped_registered_wait_is_skipped() {
    let mut svc0 = Svc::new(Decr::from(5));
    let mut svc1 = svc0.clone();
    let mut svc2 = svc0.clone();
    assert!(is_ready(svc0.poll_ready()));
    assert!(!is_ready(svc1.poll_ready()));
    assert!(!is_ready(svc2.poll_ready()));
    let wait1 = svc1.waiting().expect("must wait");
    svc2.drop_lock();
    assert!(svc0.notified.borrow().is_empty());
    svc0.call(1).expect("must not fail");
    assert_eq!(*svc0.notified.borrow(), vec![wait1]);
}

#[test]
fn quiet_drop_notifies_nobody_while_claimed() {
    let mut svc0 = Svc::new(Decr::from(5));
    let mut svc1 = svc0.clone();
    let mut svc2 = svc0.clone();
    assert!(is_ready(svc0.poll_ready()));
    assert!(!is_ready(svc1.poll_ready()));
    assert!(!is_ready(svc2.poll_ready()));
    let wait2 = svc2.waiting().expect("must wait");
    svc0.call(1).expect("must not fail");
    // svc0 takes the service again before the notified lock polls.
    assert!(is_ready(svc0.poll_ready()));
    svc2.drop_quietly();
    assert_eq!(*svc0.notified.borrow(), vec![wait2]);
}

#[test]
fn failure_notifies_all_waits() {
    let mut svc0 = Svc::new(Decr::from(1));
    let mut svc1 = svc0.clone();
    let mut svc2 = svc0.clone();
    assert!(is_ready(svc0.poll_ready()));
    assert!(!is_ready(svc1.poll_ready()));
    assert!(!is_ready(svc2.poll_ready()));
    let wait1 = svc1.waiting().expect("must wait");
    let wait2 = svc2.waiting().expect("must wait");
    match &mut svc0.lock.state {
        State::Acquired(service) => service.value = 0,
        _ => panic!("must be acquired"),
    }
    assert!(svc0.poll_ready().is_err());
    assert_eq!(*svc0.notified.borrow(), vec![wait2, wait1]);
    assert!(svc1.poll_ready().is_err());
    assert!(svc2.poll_ready().is_err());
}

#[test]
fn poisoned_state_is_reported() {
    let mut svc0 = Svc::new(Decr::from(5));
    let mut svc1 = svc0.clone();
    assert!(is_ready(svc0.poll_ready()));
    *svc0.poisoned.borrow_mut() = true;
    assert!(matches!(svc1.poll_ready(), Err(Error::Poisoned)));
    // The lock that holds the service can still use it, once.
    assert!(is_ready(svc0.poll_ready()));
    assert_eq!(svc0.call(1).expect("must not fail"), 4);
    assert!(matches!(svc0.poll_ready(), Err(Error::Poisoned)));
}

#[test]
fn poisoned_message() {
    let (mut lock, mut shared) = Lock::<u8, u8>::new(1);
    match lock.poll_ready(&mut shared, true) {
        Ready::Poisoned(poisoned) => assert_eq!(poisoned.message(), "poisoned"),
        other => panic!("unexpected: {:?}", other),
    }
}
