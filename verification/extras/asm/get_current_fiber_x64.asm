; void* get_current_fiber(void): the fiber data of the thread information block.

.code

get_current_fiber proc
    mov rax, gs:[20h]
    ret
get_current_fiber endp

end
