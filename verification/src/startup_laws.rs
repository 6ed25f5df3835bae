//! What startup achieves when it is driven against accounts and an
//! environment that behave as expected: the administrator is seeded once.

use crate::models::role::Role;
use crate::models::user::{UserRegisterView, ADMIN_USERNAME};
use crate::startup::{
    boot_step, BootFailure, BootProgressView, BootReplyView, BootRequestView, StageView,
    ADMIN_EMAIL, ADMIN_PASSWORD,
};
use vstd::prelude::*;

verus! {

/// An account of the user table, as far as startup is concerned.
pub struct Account {
    pub username: Seq<char>,
    pub email: Seq<char>,
    pub role: Role,
}

/// What startup works on: the accounts by id, and the environment variables
/// by name.
pub struct World {
    pub accounts: Map<i64, Account>,
    pub variables: Map<Seq<char>, Seq<char>>,
}

impl World {
    /// The ids of the accounts with this user name.
    pub open spec fn named(self, name: Seq<char>) -> Set<i64> {
        Set::new(|id: i64| self.accounts.dom().contains(id) && self.accounts[id].username == name)
    }

    /// Whether an account with this user name exists.
    pub open spec fn has_username(self, name: Seq<char>) -> bool {
        exists|id: i64| #[trigger] self.named(name).contains(id)
    }

    /// Whether the work succeeds. A variable can be read if it is set, an
    /// account can be registered under a user name that is free, and a role
    /// can be given to an account that exists. `fresh` is the id that a
    /// registered account would get.
    pub open spec fn accepts(self, request: BootRequestView, fresh: i64) -> bool {
        match request {
            BootRequestView::ReadVariable(name) => self.variables.dom().contains(name),
            BootRequestView::CreateUser(registration) => !self.accounts.dom().contains(fresh)
                && !self.has_username(registration.username),
            BootRequestView::UpdateRole { user_id, role } => self.accounts.dom().contains(user_id),
            _ => true,
        }
    }

    /// The reply to `request`.
    pub open spec fn answer(self, request: BootRequestView, fresh: i64) -> BootReplyView {
        if !self.accepts(request, fresh) {
            BootReplyView::Failed
        } else {
            match request {
                BootRequestView::UsernameExists(name) => BootReplyView::Exists(
                    self.has_username(name),
                ),
                BootRequestView::ReadVariable(name) => BootReplyView::Value(self.variables[name]),
                BootRequestView::CreateUser(_) => BootReplyView::Created(fresh),
                _ => BootReplyView::Done,
            }
        }
    }

    /// The accounts and the environment after `request`.
    pub open spec fn after(self, request: BootRequestView, fresh: i64) -> World {
        if !self.accepts(request, fresh) {
            self
        } else {
            match request {
                BootRequestView::CreateUser(registration) => World {
                    accounts: self.accounts.insert(
                        fresh,
                        Account {
                            username: registration.username,
                            email: registration.email,
                            role: Role::User,
                        },
                    ),
                    variables: self.variables,
                },
                BootRequestView::UpdateRole { user_id, role } => World {
                    accounts: self.accounts.insert(
                        user_id,
                        Account {
                            username: self.accounts[user_id].username,
                            email: self.accounts[user_id].email,
                            role,
                        },
                    ),
                    variables: self.variables,
                },
                _ => self,
            }
        }
    }

    /// This world with the administrator registered under the id `fresh`,
    /// with the e-mail address that the environment holds.
    pub open spec fn with_admin(self, fresh: i64) -> World {
        World {
            accounts: self.accounts.insert(
                fresh,
                Account {
                    username: ADMIN_USERNAME@,
                    email: self.variables[ADMIN_EMAIL@],
                    role: Role::Admin,
                },
            ),
            variables: self.variables,
        }
    }
}

/// Does the work `request` in `world`, resumes startup with the reply, and
/// goes on like that until startup ends. Returns how it ended and the world
/// then. Startup asks for no more than `fuel` = 8 pieces of work.
pub open spec fn boot_drive(
    stage: StageView,
    request: BootRequestView,
    world: World,
    fresh: i64,
    fuel: nat,
) -> (BootProgressView, World)
    decreases fuel,
{
    if fuel == 0 {
        (BootProgressView::Abort(BootFailure::UnexpectedReply), world)
    } else {
        let moved = boot_step(stage, world.answer(request, fresh));
        let world_after = world.after(request, fresh);
        match moved.1 {
            BootProgressView::Ask(next) => boot_drive(
                moved.0,
                next,
                world_after,
                fresh,
                (fuel - 1) as nat,
            ),
            ended => (ended, world_after),
        }
    }
}

/// One whole startup in `world`.
pub open spec fn boot(world: World, fresh: i64) -> (BootProgressView, World) {
    boot_drive(StageView::LoadingEnvironment, BootRequestView::LoadEnvironmentFile, world, fresh, 8)
}

/// Where the administrator exists, startup launches and changes nothing.
pub proof fn law_startup_keeps_the_admin(world: World, fresh: i64)
    requires
        world.has_username(ADMIN_USERNAME@),
    ensures
        boot(world, fresh) == (BootProgressView::Launch, world),
{
    reveal_with_fuel(boot_drive, 9);
}

/// Where no administrator exists and both credentials are configured,
/// startup registers exactly the administrator and launches.
pub proof fn law_startup_seeds_the_admin(world: World, fresh: i64)
    requires
        !world.has_username(ADMIN_USERNAME@),
        world.variables.dom().contains(ADMIN_EMAIL@),
        world.variables.dom().contains(ADMIN_PASSWORD@),
        !world.accounts.dom().contains(fresh),
    ensures
        boot(world, fresh) == (BootProgressView::Launch, world.with_admin(fresh)),
        world.with_admin(fresh).named(ADMIN_USERNAME@) == set![fresh],
{
    reveal_with_fuel(boot_drive, 9);
    let registration = UserRegisterView {
        email: world.variables[ADMIN_EMAIL@],
        password: world.variables[ADMIN_PASSWORD@],
        username: ADMIN_USERNAME@,
    };
    let created = world.after(BootRequestView::CreateUser(registration), fresh);
    let promoted = created.after(
        BootRequestView::UpdateRole { user_id: fresh, role: Role::Admin },
        fresh,
    );
    assert(promoted.accounts =~= world.with_admin(fresh).accounts);
    assert forall|id: i64| world.with_admin(fresh).named(ADMIN_USERNAME@).contains(id) implies id
        == fresh by {
        if id != fresh {
            assert(world.named(ADMIN_USERNAME@).contains(id));
        }
    }
    assert(world.with_admin(fresh).named(ADMIN_USERNAME@).contains(fresh));
    assert(world.with_admin(fresh).named(ADMIN_USERNAME@) =~= set![fresh]);
}

/// Whatever the world, startup either leaves it as it is or registers the
/// administrator where there was none.
pub proof fn law_startup_changes_only_the_admin(world: World, fresh: i64)
    ensures
        boot(world, fresh).1 == world || ({
            &&& !world.has_username(ADMIN_USERNAME@)
            &&& boot(world, fresh) == (BootProgressView::Launch, world.with_admin(fresh))
        }),
{
    reveal_with_fuel(boot_drive, 9);
    if !world.has_username(ADMIN_USERNAME@) && world.variables.dom().contains(ADMIN_EMAIL@)
        && world.variables.dom().contains(ADMIN_PASSWORD@) && !world.accounts.dom().contains(
        fresh,
    ) {
        law_startup_seeds_the_admin(world, fresh);
    }
}

/// Startup that is repeated never registers a second administrator: of the
/// accounts under the administrator's name after two startups, at most one
/// was not there before, and a startup that finds one registers none.
pub proof fn law_repeated_startup_seeds_once(world: World, first_fresh: i64, second_fresh: i64)
    ensures
        ({
            let first = boot(world, first_fresh).1;
            let second = boot(first, second_fresh).1;
            &&& first.has_username(ADMIN_USERNAME@) ==> second == first
            &&& forall|a: i64, b: i64|
                #![trigger second.named(ADMIN_USERNAME@).contains(a), second.named(ADMIN_USERNAME@).contains(b)]
                second.named(ADMIN_USERNAME@).contains(a) && second.named(
                    ADMIN_USERNAME@,
                ).contains(b) && !world.named(ADMIN_USERNAME@).contains(a) && !world.named(
                    ADMIN_USERNAME@,
                ).contains(b) ==> a == b
        }),
{
    let first = boot(world, first_fresh).1;
    let second = boot(first, second_fresh).1;
    law_startup_changes_only_the_admin(world, first_fresh);
    law_startup_changes_only_the_admin(first, second_fresh);
    if first.has_username(ADMIN_USERNAME@) {
        law_startup_keeps_the_admin(first, second_fresh);
    }
    if first != world {
        assert(first.named(ADMIN_USERNAME@).contains(first_fresh));
    }
}

/// The work that startup asks for from `stage` on when the replies are
/// `replies` from the `k`-th on, one reply to each request in turn, until
/// startup ends.
pub open spec fn boot_asked_from(stage: StageView, replies: Seq<BootReplyView>, k: int) -> Seq<
    BootRequestView,
>
    decreases replies.len() - k,
{
    if k < 0 || k >= replies.len() {
        Seq::empty()
    } else {
        let moved = boot_step(stage, replies[k]);
        match moved.1 {
            BootProgressView::Ask(request) => seq![request] + boot_asked_from(
                moved.0,
                replies,
                k + 1,
            ),
            _ => Seq::empty(),
        }
    }
}

/// The work that startup asks for after its first request when the replies
/// are `replies`.
pub open spec fn boot_asked(replies: Seq<BootReplyView>) -> Seq<BootRequestView> {
    boot_asked_from(StageView::LoadingEnvironment, replies, 0)
}

/// Whatever the replies, startup registers an account only after it was told
/// that no administrator exists, and then it registers the administrator,
/// with the credentials that it read: the registration is its seventh
/// request, the fourth reply is that the name is free, and the fifth and the
/// sixth reply are the e-mail address and the password.
pub proof fn law_startup_registers_only_a_missing_admin(replies: Seq<BootReplyView>, i: int)
    requires
        0 <= i < boot_asked(replies).len(),
        boot_asked(replies)[i] is CreateUser,
    ensures
        i == 5,
        replies.len() >= 6,
        replies[3] == BootReplyView::Exists(false),
        replies[4] matches BootReplyView::Value(email) && replies[5] matches BootReplyView::Value(
            password,
        ) && boot_asked(replies)[i] == BootRequestView::CreateUser(
            UserRegisterView { email, password, username: ADMIN_USERNAME@ },
        ),
{
    reveal_with_fuel(boot_asked_from, 10);
}

} // verus!
