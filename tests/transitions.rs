use sol_todo_list::add::{add, Add};
use sol_todo_list::cancel::{cancel, Cancel};
use sol_todo_list::create_list::{create_list, list_seeds, name_seed, CreateList, NAME_SEED_LEN};
use sol_todo_list::error::TodoListError;
use sol_todo_list::escrow::{deposit_amount, move_value, sweep};
use sol_todo_list::finish::{finish, Finish};
use sol_todo_list::state::{ListItem, Pubkey, TodoList};

fn key(b: u8) -> Pubkey {
    Pubkey::filled(b)
}

fn blank_list() -> TodoList {
    TodoList { list_owner: key(0), bump: 0, capacity: 0, name: String::new(), lines: Vec::new() }
}

fn blank_item() -> ListItem {
    ListItem { creator: key(0), creator_finished: false, list_owner_finished: false, name: String::new() }
}

fn new_list(owner: Pubkey, name: &str, capacity: u16) -> TodoList {
    let mut ctx = CreateList { list: blank_list(), user: owner };
    assert_eq!(create_list(&mut ctx, name.to_string(), capacity, 254), Ok(()));
    ctx.list
}

/// Adds an item through `add`; returns the result, the list, the item, the
/// item's balance and the caller's balance afterwards.
fn add_item(
    list: TodoList,
    owner: Pubkey,
    item_key: Pubkey,
    user: Pubkey,
    user_lamports: u64,
    name: &str,
    bounty: u64,
    reserved: u64,
) -> (Result<(), TodoListError>, Add) {
    let mut ctx = Add {
        list,
        list_owner: owner,
        item_key,
        item: blank_item(),
        item_lamports: reserved,
        user,
        user_lamports,
    };
    let r = add(&mut ctx, "groceries".to_string(), name.to_string(), bounty);
    (r, ctx)
}

fn cancel_ctx(list: TodoList, item_key: Pubkey, item: ListItem, item_lamports: u64, user: Pubkey, creator_lamports: u64) -> Cancel {
    Cancel {
        list_owner: list.list_owner,
        list,
        item_key,
        item_creator: item.creator,
        item,
        item_lamports,
        item_creator_lamports: creator_lamports,
        user,
    }
}

fn finish_ctx(list: TodoList, owner_lamports: u64, item_key: Pubkey, item: ListItem, item_lamports: u64, user: Pubkey) -> Finish {
    Finish {
        list_owner: list.list_owner,
        list_owner_lamports: owner_lamports,
        list,
        item_key,
        item_creator: item.creator,
        item,
        item_lamports,
        user,
    }
}

#[test]
fn groceries_scenario() {
    let o = key(1);
    let a = key(2);
    let b = key(3);
    let milk = key(10);
    let eggs = key(11);
    let bread = key(12);
    let list = new_list(o, "groceries", 2);
    assert_eq!(list.list_owner, o);
    assert_eq!(list.capacity, 2);
    assert!(list.lines.is_empty());

    let (r, ctx) = add_item(list, o, milk, a, 5000, "milk", 1000, 500);
    assert_eq!(r, Ok(()));
    assert_eq!(ctx.user_lamports, 4500);
    assert_eq!(ctx.item_lamports, 1000);
    assert_eq!(ctx.item.creator, a);
    assert_eq!(ctx.item.name, "milk");
    let milk_item = ctx.item.clone();
    let milk_lamports = ctx.item_lamports;
    let a_lamports = ctx.user_lamports;

    let (r, ctx) = add_item(ctx.list, o, eggs, a, a_lamports, "eggs", 800, 500);
    assert_eq!(r, Ok(()));
    assert_eq!(ctx.list.lines, vec![milk, eggs]);
    let eggs_item = ctx.item.clone();
    let eggs_lamports = ctx.item_lamports;
    let a_lamports = ctx.user_lamports;
    assert_eq!(a_lamports, 4200);

    let (r, ctx) = add_item(ctx.list, o, bread, b, 9000, "bread", 700, 500);
    assert_eq!(r, Err(TodoListError::ListFull));
    assert_eq!(ctx.list.lines, vec![milk, eggs]);
    assert_eq!(ctx.user_lamports, 9000);

    let mut c = cancel_ctx(ctx.list, milk, milk_item, milk_lamports, a, a_lamports);
    assert_eq!(cancel(&mut c, "groceries".to_string()), Ok(()));
    assert_eq!(c.item_creator_lamports, a_lamports + 1000);
    assert_eq!(c.item_lamports, 0);
    assert_eq!(c.list.lines, vec![eggs]);

    let mut f = finish_ctx(c.list, 0, eggs, eggs_item, eggs_lamports, o);
    assert_eq!(finish(&mut f, "groceries".to_string()), Ok(()));
    assert!(f.item.list_owner_finished);
    assert!(!f.item.creator_finished);
    assert_eq!(f.list_owner_lamports, 0);
    assert_eq!(f.item_lamports, 800);
    f.user = a;
    assert_eq!(finish(&mut f, "groceries".to_string()), Ok(()));
    assert_eq!(f.list_owner_lamports, 800);
    assert_eq!(f.item_lamports, 0);
    assert!(f.list.lines.is_empty());
}

#[test]
fn adds_fill_capacity_then_list_full() {
    for capacity in 0u16..5 {
        let o = key(1);
        let mut list = new_list(o, "chores", capacity);
        for i in 0..capacity {
            let (r, ctx) = add_item(list, o, key(100 + i as u8), key(2), 10_000, "task", 600, 500);
            assert_eq!(r, Ok(()));
            assert_eq!(ctx.list.lines.len(), i as usize + 1);
            list = ctx.list;
        }
        let (r, ctx) = add_item(list, o, key(200), key(2), 10_000, "one more", 600, 500);
        assert_eq!(r, Err(TodoListError::ListFull));
        assert_eq!(ctx.list.lines.len(), capacity as usize);
    }
}

#[test]
fn bounty_below_reserve_is_refused() {
    let o = key(1);
    let list = new_list(o, "chores", 3);
    let (r, ctx) = add_item(list, o, key(10), key(2), 10_000, "task", 499, 500);
    assert_eq!(r, Err(TodoListError::BountyTooSmall));
    assert!(ctx.list.lines.is_empty());
    assert_eq!(ctx.item_lamports, 500);
    assert_eq!(ctx.user_lamports, 10_000);
    assert_eq!(ctx.item.creator, key(0));
}

#[test]
fn bounty_equal_to_reserve_moves_nothing() {
    let o = key(1);
    let list = new_list(o, "chores", 3);
    let (r, ctx) = add_item(list, o, key(10), key(2), 10_000, "task", 500, 500);
    assert_eq!(r, Ok(()));
    assert_eq!(ctx.item_lamports, 500);
    assert_eq!(ctx.user_lamports, 10_000);
}

#[test]
fn bounty_beyond_funds_is_refused() {
    let o = key(1);
    let list = new_list(o, "chores", 3);
    let (r, ctx) = add_item(list, o, key(10), key(2), 100, "task", 1000, 500);
    assert_eq!(r, Err(TodoListError::InsufficientFunds));
    assert!(ctx.list.lines.is_empty());
    assert_eq!(ctx.item_lamports, 500);
    assert_eq!(ctx.user_lamports, 100);
}

fn list_with_two_items(o: Pubkey, creator: Pubkey) -> (TodoList, ListItem, ListItem) {
    let list = new_list(o, "chores", 4);
    let (r, ctx) = add_item(list, o, key(10), creator, 10_000, "first", 1000, 500);
    assert_eq!(r, Ok(()));
    let first = ctx.item.clone();
    let (r, ctx) = add_item(ctx.list, o, key(11), creator, 10_000, "second", 2000, 500);
    assert_eq!(r, Ok(()));
    (ctx.list, first, ctx.item)
}

#[test]
fn cancel_by_owner_refunds_creator() {
    let o = key(1);
    let a = key(2);
    let (list, first, _) = list_with_two_items(o, a);
    let mut c = cancel_ctx(list, key(10), first, 1000, o, 7);
    assert_eq!(cancel(&mut c, "chores".to_string()), Ok(()));
    assert_eq!(c.item_creator, a);
    assert_eq!(c.item_creator_lamports, 1007);
    assert_eq!(c.item_lamports, 0);
    assert_eq!(c.list.lines, vec![key(11)]);
}

#[test]
fn cancel_twice_fails_item_not_found() {
    let o = key(1);
    let a = key(2);
    let (list, _, second) = list_with_two_items(o, a);
    let mut c = cancel_ctx(list, key(11), second, 2000, a, 0);
    assert_eq!(cancel(&mut c, "chores".to_string()), Ok(()));
    assert_eq!(c.list.lines, vec![key(10)]);
    assert_eq!(cancel(&mut c, "chores".to_string()), Err(TodoListError::ItemNotFound));
    assert_eq!(c.list.lines, vec![key(10)]);
    assert_eq!(c.item_creator_lamports, 2000);
}

#[test]
fn cancel_by_stranger_is_refused() {
    let o = key(1);
    let a = key(2);
    let (list, first, _) = list_with_two_items(o, a);
    let mut c = cancel_ctx(list, key(10), first, 1000, key(9), 0);
    assert_eq!(cancel(&mut c, "chores".to_string()), Err(TodoListError::WrongCancelPermission));
    assert_eq!(c.list.lines.len(), 2);
    assert_eq!(c.item_lamports, 1000);
}

#[test]
fn cancel_with_wrong_creator_is_refused() {
    let o = key(1);
    let a = key(2);
    let (list, first, _) = list_with_two_items(o, a);
    let mut c = cancel_ctx(list, key(10), first, 1000, a, 0);
    c.item_creator = key(9);
    assert_eq!(cancel(&mut c, "chores".to_string()), Err(TodoListError::WrongItemCreator));
    assert_eq!(c.item_lamports, 1000);
}

#[test]
fn finish_needs_both_confirmations_and_is_idempotent() {
    let o = key(1);
    let a = key(2);
    let (list, first, _) = list_with_two_items(o, a);
    let mut f = finish_ctx(list, 50, key(10), first, 1000, a);
    assert_eq!(finish(&mut f, "chores".to_string()), Ok(()));
    assert!(f.item.creator_finished);
    assert!(!f.item.list_owner_finished);
    assert_eq!(f.item_lamports, 1000);
    assert_eq!(f.list_owner_lamports, 50);
    assert_eq!(finish(&mut f, "chores".to_string()), Ok(()));
    assert!(f.item.creator_finished);
    assert!(!f.item.list_owner_finished);
    assert_eq!(f.item_lamports, 1000);
    assert_eq!(f.list_owner_lamports, 50);
    assert_eq!(f.list.lines.len(), 2);
    f.user = o;
    assert_eq!(finish(&mut f, "chores".to_string()), Ok(()));
    assert_eq!(f.item_lamports, 0);
    assert_eq!(f.list_owner_lamports, 1050);
    assert_eq!(f.list.lines, vec![key(11)]);
    assert_eq!(finish(&mut f, "chores".to_string()), Err(TodoListError::ItemNotFound));
    assert_eq!(f.list_owner_lamports, 1050);
}

#[test]
fn finish_by_owner_who_is_also_creator_pays_out_at_once() {
    let o = key(1);
    let (list, first, _) = list_with_two_items(o, o);
    let mut f = finish_ctx(list, 0, key(10), first, 1000, o);
    assert_eq!(finish(&mut f, "chores".to_string()), Ok(()));
    assert!(f.item.creator_finished && f.item.list_owner_finished);
    assert_eq!(f.list_owner_lamports, 1000);
    assert_eq!(f.list.lines, vec![key(11)]);
}

#[test]
fn finish_by_stranger_is_refused() {
    let o = key(1);
    let (list, first, _) = list_with_two_items(o, key(2));
    let mut f = finish_ctx(list, 0, key(10), first, 1000, key(9));
    assert_eq!(finish(&mut f, "chores".to_string()), Err(TodoListError::WrongFinishPermission));
    assert!(!f.item.creator_finished && !f.item.list_owner_finished);
}

#[test]
fn finish_of_confirmed_item_still_listed_is_refused() {
    let o = key(1);
    let (list, mut first, _) = list_with_two_items(o, key(2));
    first.creator_finished = true;
    first.list_owner_finished = true;
    let mut f = finish_ctx(list, 0, key(10), first, 1000, o);
    assert_eq!(finish(&mut f, "chores".to_string()), Err(TodoListError::ItemAlreadyFinished));
    assert_eq!(f.item_lamports, 1000);
}

#[test]
fn finish_with_wrong_creator_is_refused() {
    let o = key(1);
    let (list, first, _) = list_with_two_items(o, key(2));
    let mut f = finish_ctx(list, 0, key(10), first, 1000, o);
    f.item_creator = key(9);
    assert_eq!(finish(&mut f, "chores".to_string()), Err(TodoListError::WrongItemCreator));
}

#[test]
fn finish_of_unlisted_item_is_refused() {
    let o = key(1);
    let (list, first, _) = list_with_two_items(o, key(2));
    let mut f = finish_ctx(list, 0, key(42), first, 1000, o);
    assert_eq!(finish(&mut f, "chores".to_string()), Err(TodoListError::ItemNotFound));
}

#[test]
fn wrong_list_owner_is_refused_everywhere() {
    let o = key(1);
    let a = key(2);
    let (list, first, _) = list_with_two_items(o, a);

    let (r, ctx) = add_item(list.clone(), key(9), key(12), a, 10_000, "task", 1000, 500);
    assert_eq!(r, Err(TodoListError::WrongListOwner));
    assert_eq!(ctx.list.lines.len(), 2);
    assert_eq!(ctx.user_lamports, 10_000);

    let mut c = cancel_ctx(list.clone(), key(10), first.clone(), 1000, a, 0);
    c.list_owner = key(9);
    assert_eq!(cancel(&mut c, "chores".to_string()), Err(TodoListError::WrongListOwner));
    assert_eq!(c.list.lines.len(), 2);
    assert_eq!(c.item_creator_lamports, 0);

    let mut f = finish_ctx(list, 0, key(10), first, 1000, a);
    f.list_owner = key(9);
    assert_eq!(finish(&mut f, "chores".to_string()), Err(TodoListError::WrongListOwner));
    assert!(!f.item.creator_finished);
}

#[test]
fn entry_points_forward_to_transitions() {
    let o = key(1);
    let mut ctx = CreateList { list: blank_list(), user: o };
    assert_eq!(sol_todo_list::sol_todo_list::create_list(&mut ctx, "x".to_string(), 1, 7), Ok(()));
    assert_eq!(ctx.list.bump, 7);
    let mut a = Add {
        list: ctx.list,
        list_owner: o,
        item_key: key(10),
        item: blank_item(),
        item_lamports: 100,
        user: key(2),
        user_lamports: 1000,
    };
    assert_eq!(sol_todo_list::sol_todo_list::add(&mut a, "x".to_string(), "t".to_string(), 300), Ok(()));
    assert_eq!(a.user_lamports, 800);
    let mut f = finish_ctx(a.list.clone(), 0, key(10), a.item.clone(), 300, o);
    assert_eq!(sol_todo_list::sol_todo_list::finish(&mut f, "x".to_string()), Ok(()));
    assert!(f.item.list_owner_finished);
    let mut c = cancel_ctx(a.list, key(10), a.item, 300, o, 0);
    assert_eq!(sol_todo_list::sol_todo_list::cancel(&mut c, "x".to_string()), Ok(()));
    assert_eq!(c.item_creator_lamports, 300);
}

#[test]
fn name_seed_keeps_at_most_32_bytes() {
    assert_eq!(NAME_SEED_LEN, 32);
    assert_eq!(name_seed("groceries"), b"groceries");
    assert_eq!(name_seed(""), b"");
    let exact = "a".repeat(32);
    assert_eq!(name_seed(&exact), exact.as_bytes());
    let long = format!("{}{}", "b".repeat(32), "tail");
    assert_eq!(name_seed(&long), "b".repeat(32).as_bytes());
}

#[test]
fn record_sizes() {
    assert_eq!(TodoList::space("groceries", 2), 8 + 32 + 1 + 2 + 4 + 9 + 4 + 64);
    assert_eq!(TodoList::space("", 0), 51);
    assert_eq!(ListItem::space("milk"), 50);
    assert_eq!(ListItem::space(""), 46);
}

#[test]
fn escrow_arithmetic() {
    assert_eq!(deposit_amount(1000, 500), Ok(500));
    assert_eq!(deposit_amount(500, 500), Ok(0));
    assert_eq!(deposit_amount(499, 500), Err(TodoListError::BountyTooSmall));
    let (mut from, mut to) = (100u64, 5u64);
    assert_eq!(move_value(&mut from, &mut to, 40), Ok(()));
    assert_eq!((from, to), (60, 45));
    assert_eq!(move_value(&mut from, &mut to, 61), Err(TodoListError::InsufficientFunds));
    assert_eq!((from, to), (60, 45));
    sweep(&mut from, &mut to);
    assert_eq!((from, to), (0, 105));
}

#[test]
fn keys_compare_by_bytes() {
    let mut bytes = [3u8; 32];
    assert_eq!(Pubkey::new(bytes), key(3));
    bytes[31] = 4;
    assert_ne!(Pubkey::new(bytes), key(3));
    assert_eq!(Pubkey::new(bytes).bytes[31], 4);
}

#[test]
fn error_messages() {
    assert_eq!(TodoListError::ListFull.message(), "This list is full");
    assert_eq!(TodoListError::ItemNotFound.message(), "Item not found");
    assert_eq!(TodoListError::WrongItemCreator.message(), "Item creator is not correct");
}

#[test]
fn list_seeds_hold_tag_owner_and_name_prefix() {
    let owner = key(7);
    let seeds = list_seeds(&owner, "groceries");
    assert_eq!(seeds.len(), 3);
    assert_eq!(seeds[0], b"todolist".to_vec());
    assert_eq!(seeds[1], vec![7u8; 32]);
    assert_eq!(seeds[2], b"groceries".to_vec());
    let a = format!("{}{}", "n".repeat(32), "-one");
    let b = format!("{}{}", "n".repeat(32), "-two");
    assert_eq!(list_seeds(&owner, &a), list_seeds(&owner, &b));
    assert_ne!(list_seeds(&owner, "one"), list_seeds(&owner, "two"));
    assert_ne!(list_seeds(&key(8), "one"), list_seeds(&owner, "one"));
}
