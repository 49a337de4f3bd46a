//! Numbers of the kernel, of signal frames and of the instruction decoder.

use iced_x86::Mnemonic;
use iced_x86::OpAccess;
use liteinst_runtime::owned_step::native::ACCESS_COND_WRITE;
use liteinst_runtime::owned_step::native::ACCESS_READ_COND_WRITE;
use liteinst_runtime::owned_step::native::ACCESS_READ_WRITE;
use liteinst_runtime::owned_step::native::ACCESS_WRITE;
use liteinst_runtime::owned_step::native::MNEMONIC_CLRSSBSY;
use liteinst_runtime::owned_step::native::MNEMONIC_CPUID;
use liteinst_runtime::owned_step::native::MNEMONIC_ENQCMD;
use liteinst_runtime::owned_step::native::MNEMONIC_ENQCMDS;
use liteinst_runtime::owned_step::native::MNEMONIC_INCSSPD;
use liteinst_runtime::owned_step::native::MNEMONIC_INCSSPQ;
use liteinst_runtime::owned_step::native::MNEMONIC_IRET;
use liteinst_runtime::owned_step::native::MNEMONIC_IRETD;
use liteinst_runtime::owned_step::native::MNEMONIC_IRETQ;
use liteinst_runtime::owned_step::native::MNEMONIC_LAR;
use liteinst_runtime::owned_step::native::MNEMONIC_LSL;
use liteinst_runtime::owned_step::native::MNEMONIC_LSS;
use liteinst_runtime::owned_step::native::MNEMONIC_MONITOR;
use liteinst_runtime::owned_step::native::MNEMONIC_MONITORX;
use liteinst_runtime::owned_step::native::MNEMONIC_MWAIT;
use liteinst_runtime::owned_step::native::MNEMONIC_MWAITX;
use liteinst_runtime::owned_step::native::MNEMONIC_POPF;
use liteinst_runtime::owned_step::native::MNEMONIC_POPFD;
use liteinst_runtime::owned_step::native::MNEMONIC_POPFQ;
use liteinst_runtime::owned_step::native::MNEMONIC_PUSHF;
use liteinst_runtime::owned_step::native::MNEMONIC_PUSHFD;
use liteinst_runtime::owned_step::native::MNEMONIC_PUSHFQ;
use liteinst_runtime::owned_step::native::MNEMONIC_RDFSBASE;
use liteinst_runtime::owned_step::native::MNEMONIC_RDGSBASE;
use liteinst_runtime::owned_step::native::MNEMONIC_RDPID;
use liteinst_runtime::owned_step::native::MNEMONIC_RDPKRU;
use liteinst_runtime::owned_step::native::MNEMONIC_RDPMC;
use liteinst_runtime::owned_step::native::MNEMONIC_RDPRU;
use liteinst_runtime::owned_step::native::MNEMONIC_RDRAND;
use liteinst_runtime::owned_step::native::MNEMONIC_RDSEED;
use liteinst_runtime::owned_step::native::MNEMONIC_RDTSC;
use liteinst_runtime::owned_step::native::MNEMONIC_RDTSCP;
use liteinst_runtime::owned_step::native::MNEMONIC_RET;
use liteinst_runtime::owned_step::native::MNEMONIC_RSTORSSP;
use liteinst_runtime::owned_step::native::MNEMONIC_SAVEPREVSSP;
use liteinst_runtime::owned_step::native::MNEMONIC_SETSSBSY;
use liteinst_runtime::owned_step::native::MNEMONIC_SGDT;
use liteinst_runtime::owned_step::native::MNEMONIC_SIDT;
use liteinst_runtime::owned_step::native::MNEMONIC_SLDT;
use liteinst_runtime::owned_step::native::MNEMONIC_SMSW;
use liteinst_runtime::owned_step::native::MNEMONIC_STR;
use liteinst_runtime::owned_step::native::MNEMONIC_TPAUSE;
use liteinst_runtime::owned_step::native::MNEMONIC_UMONITOR;
use liteinst_runtime::owned_step::native::MNEMONIC_UMWAIT;
use liteinst_runtime::owned_step::native::MNEMONIC_VERR;
use liteinst_runtime::owned_step::native::MNEMONIC_VERW;
use liteinst_runtime::owned_step::native::MNEMONIC_WRFSBASE;
use liteinst_runtime::owned_step::native::MNEMONIC_WRGSBASE;
use liteinst_runtime::owned_step::native::MNEMONIC_WRPKRU;
use liteinst_runtime::owned_step::native::MNEMONIC_WRSSD;
use liteinst_runtime::owned_step::native::MNEMONIC_WRSSQ;
use liteinst_runtime::owned_step::native::MNEMONIC_WRUSSD;
use liteinst_runtime::owned_step::native::MNEMONIC_WRUSSQ;
use liteinst_runtime::owned_step::native::MNEMONIC_XABORT;
use liteinst_runtime::owned_step::native::MNEMONIC_XBEGIN;
use liteinst_runtime::owned_step::native::MNEMONIC_XEND;
use liteinst_runtime::owned_step::native::MNEMONIC_XGETBV;
use liteinst_runtime::owned_step::native::MNEMONIC_XRSTOR;
use liteinst_runtime::owned_step::native::MNEMONIC_XRSTOR64;
use liteinst_runtime::owned_step::native::MNEMONIC_XRSTORS;
use liteinst_runtime::owned_step::native::MNEMONIC_XRSTORS64;
use liteinst_runtime::owned_step::native::MNEMONIC_XSAVE;
use liteinst_runtime::owned_step::native::MNEMONIC_XSAVE64;
use liteinst_runtime::owned_step::native::MNEMONIC_XSAVEC;
use liteinst_runtime::owned_step::native::MNEMONIC_XSAVEC64;
use liteinst_runtime::owned_step::native::MNEMONIC_XSAVEOPT;
use liteinst_runtime::owned_step::native::MNEMONIC_XSAVEOPT64;
use liteinst_runtime::owned_step::native::MNEMONIC_XSAVES;
use liteinst_runtime::owned_step::native::MNEMONIC_XSAVES64;
use liteinst_runtime::owned_step::native::MNEMONIC_XSETBV;
use liteinst_runtime::owned_step::native::MNEMONIC_XSTORE;
use liteinst_runtime::owned_step::native::MNEMONIC_XSTORE_ALT;
use liteinst_runtime::owned_step::native::MNEMONIC_XTEST;
use liteinst_runtime::registers::REG_EFL;
use liteinst_runtime::registers::REG_ERR;
use liteinst_runtime::registers::REG_R11;
use liteinst_runtime::registers::REG_RAX;
use liteinst_runtime::registers::REG_RBX;
use liteinst_runtime::registers::REG_RCX;
use liteinst_runtime::registers::REG_RDI;
use liteinst_runtime::registers::REG_RDX;
use liteinst_runtime::registers::REG_RIP;
use liteinst_runtime::registers::REG_RSP;
use liteinst_runtime::registers::REG_TRAPNO;
use liteinst_runtime::sys;

#[test]
fn system_call_numbers_are_the_kernels() {
    for (ours, kernels) in [
        (sys::SYS_READ, libc::SYS_read),
        (sys::SYS_WRITE, libc::SYS_write),
        (sys::SYS_CLOSE, libc::SYS_close),
        (sys::SYS_FSTAT, libc::SYS_fstat),
        (sys::SYS_LSEEK, libc::SYS_lseek),
        (sys::SYS_MMAP, libc::SYS_mmap),
        (sys::SYS_MUNMAP, libc::SYS_munmap),
        (sys::SYS_RT_SIGACTION, libc::SYS_rt_sigaction),
        (sys::SYS_RT_SIGPROCMASK, libc::SYS_rt_sigprocmask),
        (sys::SYS_IOCTL, libc::SYS_ioctl),
        (sys::SYS_PREAD64, libc::SYS_pread64),
        (sys::SYS_PWRITE64, libc::SYS_pwrite64),
        (sys::SYS_READV, libc::SYS_readv),
        (sys::SYS_WRITEV, libc::SYS_writev),
        (sys::SYS_ACCESS, libc::SYS_access),
        (sys::SYS_MREMAP, libc::SYS_mremap),
        (sys::SYS_DUP, libc::SYS_dup),
        (sys::SYS_DUP2, libc::SYS_dup2),
        (sys::SYS_GETPID, libc::SYS_getpid),
        (sys::SYS_SENDFILE, libc::SYS_sendfile),
        (sys::SYS_SOCKET, libc::SYS_socket),
        (sys::SYS_SENDTO, libc::SYS_sendto),
        (sys::SYS_RECVFROM, libc::SYS_recvfrom),
        (sys::SYS_SENDMSG, libc::SYS_sendmsg),
        (sys::SYS_RECVMSG, libc::SYS_recvmsg),
        (sys::SYS_SHUTDOWN, libc::SYS_shutdown),
        (sys::SYS_BIND, libc::SYS_bind),
        (sys::SYS_GETSOCKNAME, libc::SYS_getsockname),
        (sys::SYS_SETSOCKOPT, libc::SYS_setsockopt),
        (sys::SYS_GETSOCKOPT, libc::SYS_getsockopt),
        (sys::SYS_CLONE, libc::SYS_clone),
        (sys::SYS_FORK, libc::SYS_fork),
        (sys::SYS_VFORK, libc::SYS_vfork),
        (sys::SYS_EXECVE, libc::SYS_execve),
        (sys::SYS_EXIT, libc::SYS_exit),
        (sys::SYS_WAIT4, libc::SYS_wait4),
        (sys::SYS_FCNTL, libc::SYS_fcntl),
        (sys::SYS_FSYNC, libc::SYS_fsync),
        (sys::SYS_FTRUNCATE, libc::SYS_ftruncate),
        (sys::SYS_GETCWD, libc::SYS_getcwd),
        (sys::SYS_RENAME, libc::SYS_rename),
        (sys::SYS_MKDIR, libc::SYS_mkdir),
        (sys::SYS_RMDIR, libc::SYS_rmdir),
        (sys::SYS_UNLINK, libc::SYS_unlink),
        (sys::SYS_SYMLINK, libc::SYS_symlink),
        (sys::SYS_GETTIMEOFDAY, libc::SYS_gettimeofday),
        (sys::SYS_SETPGID, libc::SYS_setpgid),
        (sys::SYS_GETPPID, libc::SYS_getppid),
        (sys::SYS_SETSID, libc::SYS_setsid),
        (sys::SYS_RT_SIGSUSPEND, libc::SYS_rt_sigsuspend),
        (sys::SYS_SIGALTSTACK, libc::SYS_sigaltstack),
        (sys::SYS_STATFS, libc::SYS_statfs),
        (sys::SYS_GETTID, libc::SYS_gettid),
        (sys::SYS_TIME, libc::SYS_time),
        (sys::SYS_IO_SUBMIT, libc::SYS_io_submit),
        (sys::SYS_GETDENTS64, libc::SYS_getdents64),
        (sys::SYS_SET_TID_ADDRESS, libc::SYS_set_tid_address),
        (sys::SYS_CLOCK_GETTIME, libc::SYS_clock_gettime),
        (sys::SYS_CLOCK_GETRES, libc::SYS_clock_getres),
        (sys::SYS_EXIT_GROUP, libc::SYS_exit_group),
        (sys::SYS_INOTIFY_ADD_WATCH, libc::SYS_inotify_add_watch),
        (sys::SYS_OPENAT, libc::SYS_openat),
        (sys::SYS_NEWFSTATAT, libc::SYS_newfstatat),
        (sys::SYS_UNLINKAT, libc::SYS_unlinkat),
        (sys::SYS_RENAMEAT, libc::SYS_renameat),
        (sys::SYS_LINKAT, libc::SYS_linkat),
        (sys::SYS_PSELECT6, libc::SYS_pselect6),
        (sys::SYS_PPOLL, libc::SYS_ppoll),
        (sys::SYS_UNSHARE, libc::SYS_unshare),
        (sys::SYS_SET_ROBUST_LIST, libc::SYS_set_robust_list),
        (sys::SYS_SPLICE, libc::SYS_splice),
        (sys::SYS_TEE, libc::SYS_tee),
        (sys::SYS_VMSPLICE, libc::SYS_vmsplice),
        (sys::SYS_EPOLL_PWAIT, libc::SYS_epoll_pwait),
        (sys::SYS_FALLOCATE, libc::SYS_fallocate),
        (sys::SYS_DUP3, libc::SYS_dup3),
        (sys::SYS_PIPE2, libc::SYS_pipe2),
        (sys::SYS_INOTIFY_INIT1, libc::SYS_inotify_init1),
        (sys::SYS_PREADV, libc::SYS_preadv),
        (sys::SYS_PWRITEV, libc::SYS_pwritev),
        (sys::SYS_RECVMMSG, libc::SYS_recvmmsg),
        (sys::SYS_SENDMMSG, libc::SYS_sendmmsg),
        (sys::SYS_SETNS, libc::SYS_setns),
        (sys::SYS_GETCPU, libc::SYS_getcpu),
        (sys::SYS_EXECVEAT, libc::SYS_execveat),
        (sys::SYS_COPY_FILE_RANGE, libc::SYS_copy_file_range),
        (sys::SYS_PREADV2, libc::SYS_preadv2),
        (sys::SYS_PWRITEV2, libc::SYS_pwritev2),
        (sys::SYS_IO_URING_REGISTER, libc::SYS_io_uring_register),
        (sys::SYS_CLONE3, libc::SYS_clone3),
        (sys::SYS_CLOSE_RANGE, libc::SYS_close_range),
        (sys::SYS_EPOLL_PWAIT2, libc::SYS_epoll_pwait2),
        (sys::SYS_IO_PGETEVENTS, 333),
    ] {
        assert_eq!(ours, kernels);
    }
}

#[test]
fn errors_and_signals_are_the_kernels() {
    for (ours, kernels) in [
        (sys::EPERM, libc::EPERM),
        (sys::EINTR, libc::EINTR),
        (sys::EIO, libc::EIO),
        (sys::EBADF, libc::EBADF),
        (sys::EAGAIN, libc::EAGAIN),
        (sys::EFAULT, libc::EFAULT),
        (sys::EBUSY, libc::EBUSY),
        (sys::EXDEV, libc::EXDEV),
        (sys::EINVAL, libc::EINVAL),
        (sys::ENOSYS, libc::ENOSYS),
        (sys::EOVERFLOW, libc::EOVERFLOW),
        (sys::EOPNOTSUPP, libc::EOPNOTSUPP),
        (sys::ECANCELED, libc::ECANCELED),
        (sys::SIGKILL, libc::SIGKILL),
        (sys::SIGSEGV, libc::SIGSEGV),
        (sys::SIGCHLD, libc::SIGCHLD),
        (sys::SIGSTOP, libc::SIGSTOP),
        (sys::SIGSYS, libc::SIGSYS),
    ] {
        assert_eq!(ours, kernels);
    }
}

#[test]
fn registers_stand_where_signal_frames_hold_them() {
    for (ours, frames) in [
        (REG_EFL, libc::REG_EFL as usize),
        (REG_ERR, libc::REG_ERR as usize),
        (REG_R11, libc::REG_R11 as usize),
        (REG_RAX, libc::REG_RAX as usize),
        (REG_RBX, libc::REG_RBX as usize),
        (REG_RCX, libc::REG_RCX as usize),
        (REG_RDI, libc::REG_RDI as usize),
        (REG_RDX, libc::REG_RDX as usize),
        (REG_RIP, libc::REG_RIP as usize),
        (REG_RSP, libc::REG_RSP as usize),
        (REG_TRAPNO, libc::REG_TRAPNO as usize),
    ] {
        assert_eq!(ours, frames);
    }
}

#[test]
fn mnemonics_and_accesses_are_the_decoders() {
    for (ours, decoders) in [
        (MNEMONIC_RET, Mnemonic::Ret as u32),
        (MNEMONIC_PUSHF, Mnemonic::Pushf as u32),
        (MNEMONIC_PUSHFD, Mnemonic::Pushfd as u32),
        (MNEMONIC_PUSHFQ, Mnemonic::Pushfq as u32),
        (MNEMONIC_POPF, Mnemonic::Popf as u32),
        (MNEMONIC_POPFD, Mnemonic::Popfd as u32),
        (MNEMONIC_POPFQ, Mnemonic::Popfq as u32),
        (MNEMONIC_IRET, Mnemonic::Iret as u32),
        (MNEMONIC_IRETD, Mnemonic::Iretd as u32),
        (MNEMONIC_IRETQ, Mnemonic::Iretq as u32),
        (MNEMONIC_LSS, Mnemonic::Lss as u32),
        (MNEMONIC_CPUID, Mnemonic::Cpuid as u32),
        (MNEMONIC_RDTSC, Mnemonic::Rdtsc as u32),
        (MNEMONIC_RDTSCP, Mnemonic::Rdtscp as u32),
        (MNEMONIC_RDRAND, Mnemonic::Rdrand as u32),
        (MNEMONIC_RDSEED, Mnemonic::Rdseed as u32),
        (MNEMONIC_RDPMC, Mnemonic::Rdpmc as u32),
        (MNEMONIC_RDPID, Mnemonic::Rdpid as u32),
        (MNEMONIC_RDPRU, Mnemonic::Rdpru as u32),
        (MNEMONIC_RDFSBASE, Mnemonic::Rdfsbase as u32),
        (MNEMONIC_RDGSBASE, Mnemonic::Rdgsbase as u32),
        (MNEMONIC_WRFSBASE, Mnemonic::Wrfsbase as u32),
        (MNEMONIC_WRGSBASE, Mnemonic::Wrgsbase as u32),
        (MNEMONIC_RDPKRU, Mnemonic::Rdpkru as u32),
        (MNEMONIC_WRPKRU, Mnemonic::Wrpkru as u32),
        (MNEMONIC_XGETBV, Mnemonic::Xgetbv as u32),
        (MNEMONIC_XSETBV, Mnemonic::Xsetbv as u32),
        (MNEMONIC_XSAVE, Mnemonic::Xsave as u32),
        (MNEMONIC_XSAVE64, Mnemonic::Xsave64 as u32),
        (MNEMONIC_XSAVEC, Mnemonic::Xsavec as u32),
        (MNEMONIC_XSAVEC64, Mnemonic::Xsavec64 as u32),
        (MNEMONIC_XSAVEOPT, Mnemonic::Xsaveopt as u32),
        (MNEMONIC_XSAVEOPT64, Mnemonic::Xsaveopt64 as u32),
        (MNEMONIC_XSAVES, Mnemonic::Xsaves as u32),
        (MNEMONIC_XSAVES64, Mnemonic::Xsaves64 as u32),
        (MNEMONIC_XRSTOR, Mnemonic::Xrstor as u32),
        (MNEMONIC_XRSTOR64, Mnemonic::Xrstor64 as u32),
        (MNEMONIC_XRSTORS, Mnemonic::Xrstors as u32),
        (MNEMONIC_XRSTORS64, Mnemonic::Xrstors64 as u32),
        (MNEMONIC_XBEGIN, Mnemonic::Xbegin as u32),
        (MNEMONIC_XEND, Mnemonic::Xend as u32),
        (MNEMONIC_XABORT, Mnemonic::Xabort as u32),
        (MNEMONIC_XTEST, Mnemonic::Xtest as u32),
        (MNEMONIC_MONITOR, Mnemonic::Monitor as u32),
        (MNEMONIC_MONITORX, Mnemonic::Monitorx as u32),
        (MNEMONIC_MWAIT, Mnemonic::Mwait as u32),
        (MNEMONIC_MWAITX, Mnemonic::Mwaitx as u32),
        (MNEMONIC_UMONITOR, Mnemonic::Umonitor as u32),
        (MNEMONIC_UMWAIT, Mnemonic::Umwait as u32),
        (MNEMONIC_TPAUSE, Mnemonic::Tpause as u32),
        (MNEMONIC_SGDT, Mnemonic::Sgdt as u32),
        (MNEMONIC_SIDT, Mnemonic::Sidt as u32),
        (MNEMONIC_SLDT, Mnemonic::Sldt as u32),
        (MNEMONIC_SMSW, Mnemonic::Smsw as u32),
        (MNEMONIC_STR, Mnemonic::Str as u32),
        (MNEMONIC_LAR, Mnemonic::Lar as u32),
        (MNEMONIC_LSL, Mnemonic::Lsl as u32),
        (MNEMONIC_VERR, Mnemonic::Verr as u32),
        (MNEMONIC_VERW, Mnemonic::Verw as u32),
        (MNEMONIC_ENQCMD, Mnemonic::Enqcmd as u32),
        (MNEMONIC_ENQCMDS, Mnemonic::Enqcmds as u32),
        (MNEMONIC_XSTORE, Mnemonic::Xstore as u32),
        (MNEMONIC_XSTORE_ALT, Mnemonic::Xstore_alt as u32),
        (MNEMONIC_RSTORSSP, Mnemonic::Rstorssp as u32),
        (MNEMONIC_SAVEPREVSSP, Mnemonic::Saveprevssp as u32),
        (MNEMONIC_SETSSBSY, Mnemonic::Setssbsy as u32),
        (MNEMONIC_CLRSSBSY, Mnemonic::Clrssbsy as u32),
        (MNEMONIC_INCSSPD, Mnemonic::Incsspd as u32),
        (MNEMONIC_INCSSPQ, Mnemonic::Incsspq as u32),
        (MNEMONIC_WRSSD, Mnemonic::Wrssd as u32),
        (MNEMONIC_WRSSQ, Mnemonic::Wrssq as u32),
        (MNEMONIC_WRUSSD, Mnemonic::Wrussd as u32),
        (MNEMONIC_WRUSSQ, Mnemonic::Wrussq as u32),
        (ACCESS_WRITE, OpAccess::Write as u32),
        (ACCESS_COND_WRITE, OpAccess::CondWrite as u32),
        (ACCESS_READ_WRITE, OpAccess::ReadWrite as u32),
        (ACCESS_READ_COND_WRITE, OpAccess::ReadCondWrite as u32),
    ] {
        assert_eq!(ours, decoders);
    }
}
